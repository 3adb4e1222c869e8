use recon_agent::backend::{
    ChatError, OllamaChatService, OpenAiChatService, OpenAiChoice, OpenAiResponse, StreamReply,
};
use recon_agent::chat::{BaseChatMessage, ChatService, Message, Role};

#[test]
fn add_messages_keep_call_order() {
    let mut h = BaseChatMessage::new("m".to_string());
    let calls = vec![
        (Role::User, "one"),
        (Role::Assistant, "two"),
        (Role::User, "three"),
        (Role::System, "four"),
    ];
    for (role, text) in &calls {
        h.add_message(text.to_string(), *role);
    }
    let got = h.get_chat_history();
    assert_eq!(got.len(), calls.len());
    for (m, (role, text)) in got.iter().zip(calls.iter()) {
        assert_eq!(m.role, *role);
        assert_eq!(m.content, *text);
        assert!(m.images.is_none());
    }
}

#[test]
fn clear_keeping_system_leaves_only_system_message() {
    let mut h = BaseChatMessage::new("m".to_string());
    h.add_message("a".to_string(), Role::User);
    h.set_system_message("S".to_string());
    h.add_message("b".to_string(), Role::User);
    h.add_message("c".to_string(), Role::Assistant);
    assert_eq!(h.get_chat_history().len(), 4);
    h.clear_history(true);
    let got = h.get_chat_history();
    assert_eq!(got.len(), 1);
    assert_eq!(got[0].role, Role::System);
    assert_eq!(got[0].content, "S");
}

#[test]
fn latest_system_message_is_the_one_kept() {
    let mut h = BaseChatMessage::new("m".to_string());
    h.set_system_message("first".to_string());
    h.set_system_message("second".to_string());
    h.clear_history(true);
    let got = h.get_chat_history();
    assert_eq!(got.len(), 1);
    assert_eq!(got[0].content, "second");
}

#[test]
fn clear_without_system_empties_history() {
    let mut h = BaseChatMessage::new("m".to_string());
    h.set_system_message("S".to_string());
    h.add_message("x".to_string(), Role::User);
    h.clear_history(false);
    assert!(h.get_chat_history().is_empty());
}

#[test]
fn clear_keeping_system_without_one_empties_history() {
    let mut h = BaseChatMessage::new("m".to_string());
    h.add_message("x".to_string(), Role::User);
    h.clear_history(true);
    assert!(h.get_chat_history().is_empty());
}

#[test]
fn set_system_message_is_appended_in_place() {
    let mut h = BaseChatMessage::new("m".to_string());
    h.add_message("x".to_string(), Role::User);
    h.set_system_message("S".to_string());
    let got = h.get_chat_history();
    assert_eq!(got.len(), 2);
    assert_eq!(got[1].role, Role::System);
    assert_eq!(got[1].content, "S");
}

#[test]
fn attaching_images_to_empty_history_does_nothing() {
    let mut h = BaseChatMessage::new("m".to_string());
    h.attach_images_to_last(vec!["img".to_string()]);
    assert!(h.get_chat_history().is_empty());
}

#[test]
fn openai_defaults_and_endpoint() {
    let s = OpenAiChatService::new("SECRET-REDACTED".to_string(), None, None);
    assert_eq!(s.endpoint(), "https://api.openai.com/v1/chat/completions");
    assert_eq!(s.authorization(), "Bearer SECRET-REDACTED");
    let s = OpenAiChatService::new("k".to_string(), Some("x".to_string()), Some("http://h".to_string()));
    assert_eq!(s.endpoint(), "http://h/chat/completions");
}

#[test]
fn openai_request_carries_whole_history() {
    let mut s = OpenAiChatService::new("k".to_string(), None, None);
    s.set_system_message("sys".to_string());
    let req = s.prepare_send("hi".to_string(), Role::User);
    assert_eq!(req.model, "gpt-4o-mini");
    assert!(!req.stream);
    assert_eq!(req.messages.len(), 2);
    assert_eq!(req.messages[0].content, "sys");
    assert_eq!(req.messages[1].content, "hi");
    assert_eq!(req.messages[1].role, Role::User);
    assert_eq!(s.get_chat_history().len(), 2);
}

#[test]
fn empty_choice_list_is_protocol_error() {
    let r = OpenAiChatService::reply_from(&OpenAiResponse { choices: vec![] });
    assert!(matches!(r, Err(ChatError::Protocol(_))));
}

#[test]
fn first_choice_is_the_reply() {
    let choice = |t: &str| OpenAiChoice { message: Message::new(Role::Assistant, t.to_string()) };
    let r = OpenAiChatService::reply_from(&OpenAiResponse { choices: vec![choice("A"), choice("B")] });
    assert_eq!(r.unwrap(), "A");
}

#[test]
fn ollama_defaults_and_images() {
    let mut s = OllamaChatService::new(None, None);
    assert_eq!(s.endpoint(), "http://localhost:11434/api/chat");
    let req = s.prepare_send_with_images("look".to_string(), vec!["b64".to_string()], Role::User);
    assert_eq!(req.model, "llama3:8b");
    assert_eq!(req.keep_alive, 0);
    assert_eq!(req.messages.len(), 1);
    assert_eq!(req.messages[0].images, Some(vec!["b64".to_string()]));
    let req = s.prepare_send("again".to_string(), Role::User);
    assert_eq!(req.messages.len(), 2);
    assert!(req.messages[1].images.is_none());
}

fn decode_line(line: &[u8]) -> Option<String> {
    let v: serde_json::Value = serde_json::from_slice(line).ok()?;
    v.get("message")?.get("content")?.as_str().map(|s| s.to_string())
}

fn run_stream(chunks: &[&str]) -> String {
    let mut reply = StreamReply::new();
    for chunk in chunks {
        let lines = StreamReply::frame_lines(chunk.as_bytes());
        reply.absorb_lines(lines.iter().map(|l| decode_line(l)).collect());
    }
    reply.into_text()
}

#[test]
fn stream_chunks_accumulate() {
    let text = run_stream(&[
        "{\"message\":{\"role\":\"assistant\",\"content\":\"Hel\"}}\n{\"message\":{\"role\":\"assistant\",\"content\":\"lo\"}}\n",
    ]);
    assert_eq!(text, "Hello");
}

#[test]
fn stream_malformed_line_is_skipped() {
    let text = run_stream(&[
        "{\"message\":{\"role\":\"assistant\",\"content\":\"Hel\"}}\nnot-json\n",
        "{\"message\":{\"role\":\"assistant\",\"content\":\"lo\"}}\n",
    ]);
    assert_eq!(text, "Hello");
}

#[test]
fn stream_line_split_across_chunks_is_dropped() {
    let text = run_stream(&[
        "{\"message\":{\"role\":\"assistant\",\"content\":\"A\"}}\n{\"message\":{\"role\":",
        "\"assistant\",\"content\":\"B\"}}\n{\"message\":{\"role\":\"assistant\",\"content\":\"C\"}}\n",
    ]);
    assert_eq!(text, "AC");
}

#[test]
fn frame_lines_drops_empty_lines_and_carriage_returns() {
    let lines = StreamReply::frame_lines(b"a\r\n\n\r\nbc\nd");
    assert_eq!(lines, vec![b"a".to_vec(), b"bc".to_vec(), b"d".to_vec()]);
    assert!(StreamReply::frame_lines(b"").is_empty());
}

#[test]
fn absorb_skips_undecoded_lines() {
    let mut reply = StreamReply::new();
    reply.absorb_lines(vec![Some("x".to_string()), None, Some("y".to_string())]);
    assert_eq!(reply.into_text(), "xy");
}

#[test]
fn chat_error_message_is_its_detail() {
    assert_eq!(ChatError::Network("down".to_string()).message(), "down");
    assert_eq!(ChatError::Protocol("bad".to_string()).message(), "bad");
}
