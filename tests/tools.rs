use recon_agent::backend::ChatError;
use recon_agent::chat::{ChatService, Role};
use recon_agent::tools::{join_with_spaces, ChatTool, SystemCommandTool, Tool, ToolResult, ANALYST_PROMPT};

#[test]
fn system_command_tool_fields() {
    let tool = SystemCommandTool::new("Echo".to_string(), "Echo command".to_string(), "echo".to_string());
    assert_eq!(tool.name(), "Echo");
    assert_eq!(tool.description(), "Echo command");
    assert_eq!(tool.command(), "echo");
}

#[test]
fn exit_status_selects_output() {
    match SystemCommandTool::result_from_exit(true, "hello\n".to_string(), "e".to_string()) {
        ToolResult::Success(o) => assert!(o.contains("hello")),
        ToolResult::Error(_) => panic!("Expected success"),
    }
    match SystemCommandTool::result_from_exit(false, "o".to_string(), "bad".to_string()) {
        ToolResult::Error(e) => assert_eq!(e, "bad"),
        ToolResult::Success(_) => panic!("Expected error"),
    }
}

#[test]
fn chat_tool_without_key_reports_error() {
    let tool = ChatTool::new("ChatGPT".to_string(), "d".to_string());
    match tool.start(None, &vec!["x".to_string()]) {
        Err(ToolResult::Error(e)) => assert_eq!(e, "OPENAI_API_KEY not found in .env file"),
        _ => panic!("expected the missing-key error"),
    }
}

#[test]
fn chat_tool_builds_prompt_and_message() {
    let tool = ChatTool::new("ChatGPT".to_string(), "d".to_string());
    assert_eq!(tool.name(), "ChatGPT");
    let (svc, req) = match tool.start(Some("k".to_string()), &vec!["a".to_string(), "b c".to_string()]) {
        Ok(p) => p,
        Err(_) => panic!("expected a request"),
    };
    assert_eq!(req.messages.len(), 2);
    assert_eq!(req.messages[0].role, Role::System);
    assert_eq!(req.messages[0].content, ANALYST_PROMPT);
    assert_eq!(req.messages[1].role, Role::User);
    assert_eq!(req.messages[1].content, "a b c");
    assert_eq!(svc.get_chat_history().len(), 2);
    assert_eq!(svc.authorization(), "Bearer k");
}

#[test]
fn chat_tool_finish_maps_outcomes() {
    match ChatTool::finish(Ok("- finding A".to_string())) {
        ToolResult::Success(s) => assert_eq!(s, "- finding A"),
        ToolResult::Error(_) => panic!("expected success"),
    }
    match ChatTool::finish(Err(ChatError::Network("unreachable".to_string()))) {
        ToolResult::Error(e) => assert_eq!(e, "unreachable"),
        ToolResult::Success(_) => panic!("expected error"),
    }
}

#[test]
fn join_with_spaces_values() {
    assert_eq!(join_with_spaces(&vec![]), "");
    assert_eq!(join_with_spaces(&vec!["a".to_string()]), "a");
    assert_eq!(join_with_spaces(&vec!["a".to_string(), "".to_string(), "b".to_string()]), "a  b");
}
