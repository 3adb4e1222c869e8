use recon_agent::agent::{Agent, AgentAction, AgentEvent, AgentMessage, AgentState, Step};
use recon_agent::tools::ToolResult;

fn scan_args(host: &str) -> Vec<String> {
    ["-a", host, "-r", "0-10000", "--", "-sVCT", "-oX", "nmap_report.xml"]
        .iter()
        .map(|s| s.to_string())
        .collect()
}

fn summaries(step: &Step) -> Vec<String> {
    step.logs.iter().map(|l| l.0.clone()).collect()
}

#[test]
fn new_agent_is_idle_on_localhost() {
    let a = Agent::new();
    assert_eq!(a.get_state(), AgentState::Idle);
    assert_eq!(a.get_host(), "127.0.0.1");
}

#[test]
fn poke_starts_one_scan() {
    let mut a = Agent::new();
    let step = a.handle(AgentEvent::Command(AgentMessage::Poke));
    assert_eq!(a.get_state(), AgentState::Scanning);
    assert_eq!(step.logs.len(), 1);
    assert_eq!(step.logs[0].0, "Starting scan... ⏳");
    assert_eq!(step.logs[0].1, "Scanning host 127.0.0.1 with rustscan");
    match step.action {
        Some(AgentAction::RunScan(args)) => assert_eq!(args, scan_args("127.0.0.1")),
        _ => panic!("expected a scan"),
    }
}

#[test]
fn poke_while_scanning_is_noop() {
    let mut a = Agent::new();
    a.poke();
    let step = a.poke();
    assert_eq!(a.get_state(), AgentState::Scanning);
    assert!(step.logs.is_empty());
    assert!(step.action.is_none());
}

#[test]
fn set_host_when_idle_scans_new_host_once() {
    let mut a = Agent::new();
    let step = a.handle_message(AgentMessage::SetHost("10.0.0.5".to_string()));
    assert_eq!(a.get_host(), "10.0.0.5");
    assert_eq!(a.get_state(), AgentState::Scanning);
    assert_eq!(step.logs.len(), 2);
    assert_eq!(step.logs[0].0, "Now looking 🔍 at host: 10.0.0.5");
    assert_eq!(step.logs[0].1, "Host changed to 10.0.0.5");
    assert_eq!(step.logs[1].1, "Scanning host 10.0.0.5 with rustscan");
    match step.action {
        Some(AgentAction::RunScan(args)) => assert_eq!(args, scan_args("10.0.0.5")),
        _ => panic!("expected a scan"),
    }
}

#[test]
fn set_host_while_scanning_starts_no_second_scan() {
    let mut a = Agent::new();
    a.poke();
    let step = a.handle_message(AgentMessage::SetHost("10.0.0.9".to_string()));
    assert_eq!(a.get_host(), "10.0.0.9");
    assert_eq!(step.logs.len(), 1);
    assert!(step.action.is_none());
}

#[test]
fn end_to_end_scan_and_analysis() {
    let mut a = Agent::new();
    let mut logs: Vec<(String, String)> = Vec::new();
    let mut step = a.handle(AgentEvent::Command(AgentMessage::Poke));
    loop {
        logs.extend(step.logs.iter().cloned());
        let event = match step.action.take() {
            Some(AgentAction::RunScan(_)) => AgentEvent::ScanFinished(Ok(ToolResult::Success("<xml/>".to_string()))),
            Some(AgentAction::ReadReport(path)) => {
                assert_eq!(path, "nmap_report.xml");
                AgentEvent::ReportRead(Some("<xml/>".to_string()))
            }
            Some(AgentAction::RunAnalysis(args)) => {
                assert_eq!(
                    args,
                    vec!["Please analyze this nmap scan result and provide security insights: <xml/>".to_string()]
                );
                AgentEvent::AnalysisFinished(Ok(ToolResult::Success("- finding A".to_string())))
            }
            None => break,
        };
        step = a.handle(event);
    }
    assert_eq!(a.get_state(), AgentState::Idle);
    let completed = logs.iter().position(|l| l.0 == "Scan completed successfully ☑️").unwrap();
    let analysis = logs.iter().position(|l| l.0 == "I have something for you... 📄").unwrap();
    assert!(completed < analysis);
    assert_eq!(logs[analysis].1, "- finding A");
    assert_eq!(logs.len(), 4);
}

#[test]
fn scan_error_is_logged_and_agent_idles() {
    let mut a = Agent::new();
    a.poke();
    let step = a.on_scan_finished(Ok(ToolResult::Error("boom".to_string())));
    assert_eq!(a.get_state(), AgentState::Idle);
    assert_eq!(step.logs, vec![("Scan failed".to_string(), "boom".to_string())]);
    assert!(step.action.is_none());
}

#[test]
fn scan_spawn_failure_is_logged_and_agent_idles() {
    let mut a = Agent::new();
    a.poke();
    let step = a.on_scan_finished(Err("not found".to_string()));
    assert_eq!(a.get_state(), AgentState::Idle);
    assert_eq!(step.logs, vec![("Error during scan".to_string(), "not found".to_string())]);
}

#[test]
fn unreadable_report_ends_scan_silently() {
    let mut a = Agent::new();
    a.poke();
    a.on_scan_finished(Ok(ToolResult::Success(String::new())));
    let step = a.on_report_read(None);
    assert_eq!(a.get_state(), AgentState::Idle);
    assert!(step.logs.is_empty());
    assert!(step.action.is_none());
}

#[test]
fn analysis_failures_are_logged() {
    let mut a = Agent::new();
    a.poke();
    a.on_scan_finished(Ok(ToolResult::Success(String::new())));
    a.on_report_read(Some("r".to_string()));
    let step = a.on_analysis_finished(Ok(ToolResult::Error("quota".to_string())));
    assert_eq!(summaries(&step), vec!["Forgive me for I have failed (1) ⛔".to_string()]);
    assert_eq!(step.logs[0].1, "quota");
    assert_eq!(a.get_state(), AgentState::Idle);

    a.poke();
    a.on_scan_finished(Ok(ToolResult::Success(String::new())));
    a.on_report_read(Some("r".to_string()));
    let step = a.on_analysis_finished(Err("runtime".to_string()));
    assert_eq!(summaries(&step), vec!["Forgive me for I have failed (2) ⛔".to_string()]);
}

#[test]
fn stale_outcome_is_ignored() {
    let mut a = Agent::new();
    let step = a.on_scan_finished(Ok(ToolResult::Success(String::new())));
    assert_eq!(a.get_state(), AgentState::Idle);
    assert!(step.logs.is_empty());
    assert!(step.action.is_none());
}
