use ide_agent::audit::{
    audit_dir, current_environment, event_lines, list_sessions, log_line, logs_dir,
    session_id_of, session_log_name, session_meta_name, AuditSessionMeta,
};
use std::path::PathBuf;

fn names(list: &[&str]) -> Vec<String> {
    list.iter().map(|s| s.to_string()).collect()
}

#[test]
fn session_files_are_named_by_the_session() {
    assert_eq!(session_log_name("abc"), "abc.jsonl");
    assert_eq!(session_meta_name("abc"), "abc_meta.json");
    assert_eq!(session_id_of("abc.jsonl"), Some("abc".to_string()));
    assert_eq!(session_id_of(".jsonl"), Some("".to_string()));
    assert_eq!(session_id_of("abc_meta.json"), None);
    assert_eq!(session_id_of("jsonl"), None);
}

#[test]
fn sessions_are_listed_once_last_first() {
    let files = names(&["b.jsonl", "a.jsonl", "a_meta.json", "notes.txt", "c.jsonl", "b.jsonl"]);
    assert_eq!(list_sessions(&files), names(&["c", "b", "a"]));
    assert_eq!(list_sessions(&vec![]), Vec::<String>::new());
    assert_eq!(list_sessions(&names(&["x.json"])), Vec::<String>::new());
}

#[test]
fn session_listing_agrees_with_the_standard_sort() {
    let files = names(&["20.jsonl", "3.jsonl", "aa.jsonl", "a.jsonl", "B.jsonl", "3.jsonl", "я.jsonl"]);
    let mut expected: Vec<String> = files
        .iter()
        .filter_map(|n| n.strip_suffix(".jsonl").map(String::from))
        .collect();
    expected.sort();
    expected.dedup();
    expected.reverse();
    assert_eq!(list_sessions(&files), expected);
}

#[test]
fn event_lines_skip_empty_lines() {
    assert_eq!(event_lines("a\n\nb\r\n\r\nc"), names(&["a", "b", "c"]));
    assert_eq!(event_lines(""), Vec::<String>::new());
    assert_eq!(event_lines("\n\n"), Vec::<String>::new());
    assert_eq!(event_lines("one\n"), names(&["one"]));
}

#[test]
fn event_lines_agree_with_the_standard_lines() {
    for content in ["a\r\nb", "x\r", "x\r\n", "\r\n\r", "a\rb\n", "{\"type\":\"error\"}\n{\"type\":\"x\"}\n", "\r", "a\n\r\nb\r\r\n"] {
        let expected: Vec<String> = content.lines().filter(|l| !l.is_empty()).map(String::from).collect();
        assert_eq!(event_lines(content), expected, "content {:?}", content);
    }
}

#[test]
fn state_directories() {
    let root = PathBuf::from("/p");
    let home = PathBuf::from("/h");
    assert_eq!(audit_dir(Some(&root), true, Some(&home)), PathBuf::from("/p/.kengaide/audit"));
    assert_eq!(audit_dir(Some(&root), false, Some(&home)), PathBuf::from("/h/.kengaide/audit"));
    assert_eq!(audit_dir(None, false, Some(&home)), PathBuf::from("/h/.kengaide/audit"));
    assert_eq!(audit_dir(None, false, None), PathBuf::from(".kengaide/audit"));
    assert_eq!(audit_dir(Some(&root), false, None), PathBuf::from(".kengaide/audit"));
    assert_eq!(logs_dir(Some(&root), true, None), PathBuf::from("/p/.kengaide/logs"));
    assert_eq!(logs_dir(None, true, Some(&home)), PathBuf::from("/h/.kengaide/logs"));
}

#[test]
fn log_lines_carry_the_time() {
    assert_eq!(log_line("2024-01-01 10:00:00", "agent_start"), "[2024-01-01 10:00:00] agent_start\n");
}

#[test]
fn environment_is_online() {
    let e = current_environment("linux", "x86_64");
    assert_eq!(e.os, "linux");
    assert_eq!(e.arch, "x86_64");
    assert!(!e.offline);
}

#[test]
fn finishing_a_summary_sets_end_and_status() {
    let meta = AuditSessionMeta {
        session_id: "s".to_string(),
        started_at: "t0".to_string(),
        ended_at: None,
        mode: "agent".to_string(),
        task: "task".to_string(),
        status: "running".to_string(),
        policy: "default".to_string(),
        environment: None,
    };
    let done = meta.finished("t1".to_string(), "aborted");
    assert_eq!(done.ended_at, Some("t1".to_string()));
    assert_eq!(done.status, "aborted");
    assert_eq!(done.session_id, "s");
    assert_eq!(done.started_at, "t0");
    assert_eq!(done.task, "task");
}
