use recon_agent::agent::AgentMessage;
use recon_agent::commands::{Commands, UiCommand};
use recon_agent::logger::Logger;

#[test]
fn logger_ids_and_order() {
    let mut log = Logger::new();
    log.add_entry("s1".to_string(), "d1".to_string(), 1700000000, "tok".to_string());
    log.add("s2".to_string(), "d2".to_string());
    let logs = log.get_logs();
    assert_eq!(logs.len(), 2);
    assert_eq!(logs[0].id, "1700000000-tok");
    assert_eq!(logs[0].created_at, 1700000000);
    assert_eq!(logs[1].summary, "s2");
    assert_eq!(logs[1].details, "d2");
    assert!(logs[1].created_at > 1_600_000_000);
    let prefix = format!("{}-", logs[1].created_at);
    assert!(logs[1].id.starts_with(&prefix));
    assert_eq!(logs[1].id.len(), prefix.len() + 36);
    assert_ne!(log.get_logs()[1].id, {
        let mut other = Logger::new();
        other.add("s".to_string(), "d".to_string());
        other.get_logs()[0].id.clone()
    });
}

#[test]
fn format_logs_shows_time_and_summary() {
    let mut log = Logger::new();
    assert_eq!(log.format_logs(), Some(String::new()));
    log.add_entry("first".to_string(), "d".to_string(), 0, "t".to_string());
    log.add_entry("second".to_string(), "d".to_string(), 1700000000, "t".to_string());
    assert_eq!(
        log.format_logs(),
        Some("1970-01-01 00:00:00 -- first\n2023-11-14 22:13:20 -- second".to_string())
    );
}

#[test]
fn format_logs_out_of_range_time() {
    let mut log = Logger::new();
    log.add_entry("far".to_string(), "d".to_string(), 9_000_000_000_000_000_000, "t".to_string());
    assert_eq!(log.format_logs(), None);
}

#[test]
fn selection_wraps_both_ways() {
    let mut log = Logger::new();
    log.next_log();
    assert_eq!(log.get_selected(), None);
    for i in 0..3u64 {
        log.add_entry(format!("s{}", i), String::new(), i, "t".to_string());
    }
    log.next_log();
    assert_eq!(log.get_selected(), Some(0));
    log.next_log();
    log.next_log();
    assert_eq!(log.get_selected(), Some(2));
    log.next_log();
    assert_eq!(log.get_selected(), Some(0));
    log.previous_log();
    assert_eq!(log.get_selected(), Some(2));
    log.select(None);
    log.previous_log();
    assert_eq!(log.get_selected(), Some(0));
}

#[test]
fn capture_sethost_command() {
    let mut c = Commands::new();
    c.capture_command("sethost 10.0.0.5");
    assert_eq!(c.get_current_command(), "sethost");
    assert_eq!(c.get_current_command_args(), &vec!["10.0.0.5".to_string()]);
    match c.interpret() {
        UiCommand::Agent(AgentMessage::SetHost(h)) => assert_eq!(h, "10.0.0.5"),
        _ => panic!("expected sethost"),
    }
}

#[test]
fn capture_without_arguments_gives_one_empty_argument() {
    let mut c = Commands::new();
    c.capture_command("poke");
    assert_eq!(c.get_current_command(), "poke");
    assert_eq!(c.get_current_command_args(), &vec![String::new()]);
    assert!(matches!(c.interpret(), UiCommand::Agent(AgentMessage::Poke)));
    c.capture_command("");
    assert_eq!(c.get_current_command(), "poke");
}

#[test]
fn capture_keeps_empty_pieces() {
    let mut c = Commands::new();
    c.capture_command("a  b ");
    assert_eq!(c.get_current_command(), "a");
    assert_eq!(
        c.get_current_command_args(),
        &vec![String::new(), "b".to_string(), String::new()]
    );
}

#[test]
fn exit_and_unknown_commands() {
    let mut c = Commands::new();
    assert!(matches!(c.interpret(), UiCommand::Ignored));
    c.capture_command("exit");
    assert!(matches!(c.interpret(), UiCommand::Exit));
    c.capture_command("hello world");
    assert!(matches!(c.interpret(), UiCommand::Ignored));
    c.reset_command();
    assert_eq!(c.get_current_command(), "");
    assert!(c.get_current_command_args().is_empty());
}

#[test]
fn command_table() {
    let mut c = Commands::new();
    let table = c.setup_commands();
    assert_eq!(table.len(), 4);
    assert!(table.iter().any(|(k, v)| k == "poke" && v == "Poke the agent"));
    c.add_command("x".to_string(), "y".to_string());
    c.add_command("x".to_string(), "z".to_string());
}
