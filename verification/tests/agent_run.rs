use ide_agent::agent::guardrails::{is_completion, must_steer, record_failure};
use ide_agent::agent::progress::{AgentProgress, Effect, RunStatus};
use ide_agent::agent::run::{
    absorb_chunk, failure_notice, opening_effects, AgentRun, ChunkStep, Phase, ResponseStep,
    Termination, ToolStep, TurnStart, EMPTY_RESPONSE_MESSAGE, MAX_TIME_MESSAGE,
    MAX_TOKENS_MESSAGE, MAX_TURNS_MESSAGE, REPEATED_CALL_MESSAGE, REPEATED_ERRORS_MESSAGE,
    STEERING_NOTE, TOOL_CAP_MESSAGE,
};
use ide_agent::audit::{AuditEnvironment, AuditEvent};
use ide_agent::error::AiRuntimeError;
use ide_agent::orchestration::TaskRole;
use ide_agent::providers::{AiChunk, ProviderError};

fn call_text(name: &str, arguments: &str) -> String {
    format!("```tool_call\n{{\"name\": \"{}\", \"arguments\": {}}}\n```", name, arguments)
}

fn generate(run: &mut AgentRun) -> String {
    match run.begin_turn(0) {
        TurnStart::Generate { prompt, effects } => {
            assert_eq!(effects.len(), 2);
            assert!(matches!(effects[0], Effect::Progress(AgentProgress::Thinking)));
            assert!(matches!(effects[1], Effect::Audit(AuditEvent::PromptSent { .. })));
            prompt
        }
        TurnStart::Stop(t) => panic!("stopped: {:?}", t.status),
    }
}

fn session_ends(effects: &[Effect]) -> Vec<String> {
    effects
        .iter()
        .filter_map(|e| match e {
            Effect::Audit(AuditEvent::SessionEnd { status }) => Some(status.clone()),
            _ => None,
        })
        .collect()
}

fn final_messages(effects: &[Effect]) -> Vec<String> {
    effects
        .iter()
        .filter_map(|e| match e {
            Effect::Progress(AgentProgress::Done { message }) => Some(message.clone()),
            _ => None,
        })
        .collect()
}

fn assert_closed(t: &Termination, status: RunStatus, message: &str) {
    assert_eq!(t.status, status);
    assert_eq!(session_ends(&t.effects), vec![status.as_str().to_string()]);
    assert_eq!(final_messages(&t.effects), vec![message.to_string()]);
    let finishes: Vec<&Effect> = t.effects.iter().filter(|e| matches!(e, Effect::FinishMeta(_))).collect();
    assert_eq!(finishes.len(), 1);
}

fn long_text() -> String {
    "x".repeat(250)
}

#[test]
fn run_starts_with_the_transcript() {
    let run = AgentRun::start("SYS", "\n\nCTX", "  do it \n", 20);
    assert_eq!(run.conversation, "SYS\n\nCTX\n\nUser: do it\n\nAssistant: ");
    assert_eq!(run.task, "do it");
    assert_eq!(run.turn, 0);
    assert_eq!(run.phase, Phase::Ready);
}

#[test]
fn project_scenario_runs_to_done() {
    let mut run = AgentRun::start("SYS", "", "create a rust project named demo", 20);
    let prompt = generate(&mut run);
    assert_eq!(prompt, "SYS\n\nUser: create a rust project named demo\n\nAssistant: ");
    let first = "```tool_call\n{\"name\":\"create_project\",\"arguments\":{\"template\":\"rust\",\"name\":\"demo\"}}\n```";
    match run.on_response(first) {
        ResponseStep::RunTool { call, path, external, effects } => {
            assert_eq!(call.name, "create_project");
            assert_eq!(call.arg_str("template"), Some("rust".to_string()));
            assert_eq!(path, None);
            assert!(!external);
            assert_eq!(effects.len(), 3);
            match &effects[0] {
                Effect::Log(line) => assert_eq!(line, "tool_call create_project "),
                _ => panic!("expected a log line"),
            }
        }
        _ => panic!("expected a tool to run"),
    }
    match run.on_tool_result(true, "Created project at demo".to_string()) {
        ToolStep::Continue { effects } => {
            assert_eq!(effects.len(), 2);
            match &effects[0] {
                Effect::Audit(AuditEvent::ToolResult { success, output_len }) => {
                    assert!(*success);
                    assert_eq!(*output_len, Some(23));
                }
                _ => panic!("expected the result in the audit trail"),
            }
        }
        _ => panic!("expected the run to go on"),
    }
    assert!(run.conversation.ends_with(
        "\n\nTool result: OK. Created project at demo\n\n[System: Project skeleton created. The user asked: \"create a rust project named demo\". You MUST now implement using create_file or apply_patch. Do NOT stop.]\n\nAssistant: "
    ));
    assert!(run.conversation.contains(first));

    generate(&mut run);
    let second = call_text("create_file", "{\"path\": \"demo/src/main.rs\", \"content\": \"fn main() {}\"}");
    match run.on_response(&second) {
        ResponseStep::RunTool { call, path, .. } => {
            assert_eq!(call.name, "create_file");
            assert_eq!(path, Some("demo/src/main.rs".to_string()));
        }
        _ => panic!("expected a tool to run"),
    }
    assert!(matches!(
        run.on_tool_result(true, "Created demo/src/main.rs".to_string()),
        ToolStep::Continue { .. }
    ));
    assert!(run.conversation.ends_with("Tool result: OK. Created demo/src/main.rs\n\nAssistant: "));

    generate(&mut run);
    match run.on_response("  The project is ready.  ") {
        ResponseStep::Stop(t) => {
            assert_closed(&t, RunStatus::Done, "The project is ready.");
            assert_eq!(t.outcome.unwrap(), "The project is ready.");
            match &t.effects[0] {
                Effect::Log(line) => assert_eq!(line, "done msg_len=21"),
                _ => panic!("expected a log line"),
            }
        }
        _ => panic!("expected the final answer"),
    }
    assert_eq!(run.phase, Phase::Finished);
    assert_eq!(run.turn, 3);
}

#[test]
fn same_call_twice_in_a_row_aborts_without_running_it() {
    let mut run = AgentRun::start("S", "", "task", 20);
    let response = call_text("read_file", "{\"path\": \"a.rs\"}");
    generate(&mut run);
    assert!(matches!(run.on_response(&response), ResponseStep::RunTool { .. }));
    assert!(matches!(run.on_tool_result(true, "content".to_string()), ToolStep::Continue { .. }));
    generate(&mut run);
    match run.on_response(&response) {
        ResponseStep::Stop(t) => {
            assert_closed(&t, RunStatus::Aborted, REPEATED_CALL_MESSAGE);
            assert_eq!(t.outcome.unwrap(), "");
            assert!(t.effects.iter().any(|e| matches!(e, Effect::Log(l) if l == "guardrail: repeated_tool_call")));
        }
        _ => panic!("expected the run to be aborted"),
    }
    assert_eq!(run.phase, Phase::Finished);
}

#[test]
fn same_call_after_another_call_is_run_again() {
    let mut run = AgentRun::start("S", "", "task", 20);
    let a = call_text("read_file", "{\"path\": \"a.rs\"}");
    let b = call_text("read_file", "{\"path\": \"b.rs\"}");
    for response in [&a, &b, &a] {
        generate(&mut run);
        assert!(matches!(run.on_response(response), ResponseStep::RunTool { .. }));
        assert!(matches!(run.on_tool_result(true, "x".to_string()), ToolStep::Continue { .. }));
    }
}

fn fail_call(run: &mut AgentRun, path: &str, error: &str) -> ToolStep {
    generate(run);
    let response = call_text("read_file", &format!("{{\"path\": \"{}\"}}", path));
    assert!(matches!(run.on_response(&response), ResponseStep::RunTool { .. }));
    run.on_tool_result(false, error.to_string())
}

#[test]
fn three_identical_errors_abort_the_run() {
    let mut run = AgentRun::start("S", "", "task", 20);
    assert!(matches!(fail_call(&mut run, "a", "read_file: boom"), ToolStep::Continue { .. }));
    assert!(run.conversation.ends_with("Tool result: ERROR. read_file: boom\n\nAssistant: "));
    assert!(matches!(fail_call(&mut run, "b", "read_file: boom"), ToolStep::Continue { .. }));
    match fail_call(&mut run, "c", "read_file: boom") {
        ToolStep::Stop(t) => {
            assert_closed(&t, RunStatus::Aborted, REPEATED_ERRORS_MESSAGE);
            assert_eq!(t.outcome.unwrap(), "");
        }
        _ => panic!("expected the run to be aborted"),
    }
}

#[test]
fn differing_second_error_does_not_abort() {
    let mut run = AgentRun::start("S", "", "task", 20);
    assert!(matches!(fail_call(&mut run, "a", "boom"), ToolStep::Continue { .. }));
    assert!(matches!(fail_call(&mut run, "b", "other"), ToolStep::Continue { .. }));
    assert!(matches!(fail_call(&mut run, "c", "boom"), ToolStep::Continue { .. }));
    assert_eq!(run.last_errors, vec!["boom", "other", "boom"]);
    assert!(matches!(fail_call(&mut run, "d", "boom"), ToolStep::Continue { .. }));
    assert_eq!(run.last_errors, vec!["other", "boom", "boom"]);
    assert!(matches!(fail_call(&mut run, "e", "boom"), ToolStep::Stop(_)));
}

#[test]
fn success_clears_the_errors() {
    let mut run = AgentRun::start("S", "", "task", 20);
    assert!(matches!(fail_call(&mut run, "a", "boom"), ToolStep::Continue { .. }));
    assert!(matches!(fail_call(&mut run, "b", "boom"), ToolStep::Continue { .. }));
    generate(&mut run);
    assert!(matches!(run.on_response(&call_text("list_files", "{}")), ResponseStep::RunTool { .. }));
    assert!(matches!(run.on_tool_result(true, "a (file)".to_string()), ToolStep::Continue { .. }));
    assert!(run.last_errors.is_empty());
    assert!(run.conversation.contains("[System: You listed files. The user asked: \"task\"."));
    assert!(matches!(fail_call(&mut run, "c", "boom"), ToolStep::Continue { .. }));
    assert!(matches!(fail_call(&mut run, "d", "boom"), ToolStep::Continue { .. }));
}

#[test]
fn error_ring_keeps_the_last_three() {
    let mut ring: Vec<String> = Vec::new();
    assert!(!record_failure(&mut ring, "a".to_string()));
    assert!(!record_failure(&mut ring, "a".to_string()));
    assert!(record_failure(&mut ring, "a".to_string()));
    assert!(!record_failure(&mut ring, "b".to_string()));
    assert_eq!(ring, vec!["a", "a", "b"]);
    assert!(!record_failure(&mut ring, "b".to_string()));
    assert!(record_failure(&mut ring, "b".to_string()));
    assert_eq!(ring, vec!["b", "b", "b"]);
}

#[test]
fn twenty_one_turns_with_a_limit_of_twenty() {
    let mut run = AgentRun::start("S", "", "task", 20);
    let mut generations = 0;
    let mut stopped = None;
    for _ in 0..21 {
        match run.begin_turn(0) {
            TurnStart::Generate { .. } => {
                generations += 1;
                assert!(matches!(run.on_response(&long_text()), ResponseStep::Continue));
            }
            TurnStart::Stop(t) => {
                stopped = Some(t);
                break;
            }
        }
    }
    assert_eq!(generations, 20);
    assert_eq!(run.turn, 20);
    let t = stopped.unwrap();
    assert_closed(&t, RunStatus::Aborted, MAX_TURNS_MESSAGE);
    assert_eq!(t.outcome.unwrap(), "");
    match &t.effects[0] {
        Effect::Log(line) => assert_eq!(line, "guardrail: max_turns"),
        _ => panic!("expected a log line"),
    }
}

#[test]
fn no_turn_with_a_limit_of_zero() {
    let mut run = AgentRun::start("S", "", "task", 0);
    assert!(matches!(run.begin_turn(0), TurnStart::Stop(_)));
}

#[test]
fn time_limit_aborts_at_ten_minutes() {
    let mut run = AgentRun::start("S", "", "task", 20);
    assert!(matches!(run.begin_turn(599_999), TurnStart::Generate { .. }));
    let mut run = AgentRun::start("S", "", "task", 20);
    match run.begin_turn(600_000) {
        TurnStart::Stop(t) => assert_closed(&t, RunStatus::Aborted, MAX_TIME_MESSAGE),
        _ => panic!("expected the run to be aborted"),
    }
}

#[test]
fn token_limit_counts_a_quarter_of_the_bytes() {
    let mut run = AgentRun::start("S", "", "task", 20);
    generate(&mut run);
    assert!(matches!(run.on_response(&"x".repeat(128_000)), ResponseStep::Continue));
    assert_eq!(run.total_tokens_approx, 32_000);
    generate(&mut run);
    assert!(matches!(run.on_response(&"y".repeat(250)), ResponseStep::Continue));
    assert_eq!(run.total_tokens_approx, 32_062);
    match run.begin_turn(0) {
        TurnStart::Stop(t) => assert_closed(&t, RunStatus::Aborted, MAX_TOKENS_MESSAGE),
        _ => panic!("expected the run to be aborted"),
    }
}

#[test]
fn empty_response_ends_the_run_with_an_error() {
    let mut run = AgentRun::start("S", "", "task", 20);
    generate(&mut run);
    match run.on_response("  \n\t ") {
        ResponseStep::Stop(t) => {
            assert_closed(&t, RunStatus::Error, EMPTY_RESPONSE_MESSAGE);
            assert_eq!(t.outcome.unwrap(), "");
        }
        _ => panic!("expected the run to end"),
    }
}

#[test]
fn ninth_tool_call_is_not_run() {
    let mut run = AgentRun::start("S", "", "task", 20);
    for i in 0..8 {
        generate(&mut run);
        let response = call_text("read_file", &format!("{{\"path\": \"f{}\"}}", i));
        assert!(matches!(run.on_response(&response), ResponseStep::RunTool { .. }));
        assert!(matches!(run.on_tool_result(true, "x".to_string()), ToolStep::Continue { .. }));
    }
    assert_eq!(run.tool_calls_in_run, 8);
    generate(&mut run);
    match run.on_response(&call_text("read_file", "{\"path\": \"last\"}")) {
        ResponseStep::Stop(t) => {
            assert_closed(&t, RunStatus::Aborted, TOOL_CAP_MESSAGE);
            assert_eq!(t.effects.len(), 3);
        }
        _ => panic!("expected the run to be aborted"),
    }
}

#[test]
fn long_answer_without_action_is_steered_and_resets_the_call_count() {
    let mut run = AgentRun::start("S", "", "task", 20);
    generate(&mut run);
    assert!(matches!(run.on_response(&call_text("list_files", "{}")), ResponseStep::RunTool { .. }));
    assert!(matches!(run.on_tool_result(true, "x".to_string()), ToolStep::Continue { .. }));
    assert_eq!(run.tool_calls_in_run, 1);
    generate(&mut run);
    let before = run.conversation.clone();
    assert!(matches!(run.on_response(&long_text()), ResponseStep::Continue));
    assert_eq!(run.tool_calls_in_run, 0);
    assert_eq!(run.conversation, format!("{}{}{}", before, long_text(), STEERING_NOTE));
    assert_eq!(run.phase, Phase::Ready);
}

#[test]
fn completion_heuristics() {
    assert!(is_completion("short"));
    assert!(is_completion(&"x".repeat(149)));
    assert!(!is_completion(&"x".repeat(150)));
    assert!(is_completion(&format!("{} DONE", "x".repeat(300))));
    assert!(is_completion(&format!("{} Готово", "x".repeat(300))));
    assert!(is_completion(&format!("{} completed", "x".repeat(300))));
    assert!(is_completion(&format!("{} Finished", "x".repeat(300))));
    assert!(is_completion(&format!("{} ЗАВЕРШЕНО", "x".repeat(300))));
    assert!(!must_steer(&"x".repeat(200)));
    assert!(must_steer(&"x".repeat(201)));
    // Length is counted in characters.
    assert!(is_completion(&"я".repeat(149)));
    assert!(!is_completion(&"я".repeat(150)));
    assert!(!must_steer(&"я".repeat(200)));
    assert!(must_steer(&"я".repeat(201)));
}

#[test]
fn middle_length_answer_is_final() {
    let mut run = AgentRun::start("S", "", "task", 20);
    generate(&mut run);
    let answer = "x".repeat(180);
    match run.on_response(&answer) {
        ResponseStep::Stop(t) => {
            assert_closed(&t, RunStatus::Done, &answer);
            assert_eq!(t.outcome.unwrap(), answer);
        }
        _ => panic!("expected the final answer"),
    }
}

#[test]
fn patch_is_announced_and_reported() {
    let mut run = AgentRun::start("S", "", "task", 20);
    generate(&mut run);
    let response = call_text("apply_patch", "{\"path\": \"a.rs\", \"before\": \"x\", \"after\": \"y\"}");
    match run.on_response(&response) {
        ResponseStep::RunTool { effects, path, external, .. } => {
            assert!(!external);
            assert_eq!(path, Some("a.rs".to_string()));
            assert_eq!(effects.len(), 4);
            match &effects[0] {
                Effect::Log(line) => assert_eq!(line, "tool_call apply_patch path=a.rs"),
                _ => panic!("expected a log line"),
            }
            assert!(matches!(&effects[3], Effect::Progress(AgentProgress::PatchApplyStarted { path }) if path == "a.rs"));
        }
        _ => panic!("expected a tool to run"),
    }
    match run.on_tool_result(true, "Patched a.rs".to_string()) {
        ToolStep::Continue { effects } => {
            assert_eq!(effects.len(), 5);
            assert!(matches!(&effects[0], Effect::Audit(AuditEvent::PatchApplied { path, hash: None }) if path == "a.rs"));
            assert!(matches!(&effects[1], Effect::Progress(AgentProgress::PatchApplySuccess { path }) if path == "a.rs"));
            assert!(matches!(&effects[2], Effect::Progress(AgentProgress::PatchApplied { path, before, after })
                if path == "a.rs" && before == "x" && after == "y"));
            assert!(matches!(&effects[3], Effect::Audit(AuditEvent::ToolResult { success: true, output_len: Some(12) })));
            assert!(matches!(&effects[4], Effect::Progress(AgentProgress::ToolResult { success: true, output }) if output == "Patched a.rs"));
        }
        _ => panic!("expected the run to go on"),
    }
}

#[test]
fn failed_patch_is_reported_with_its_error() {
    let mut run = AgentRun::start("S", "", "task", 20);
    generate(&mut run);
    let response = call_text("apply_patch", "{\"path\": \"a.rs\", \"before\": \"x\", \"after\": \"y\"}");
    assert!(matches!(run.on_response(&response), ResponseStep::RunTool { .. }));
    match run.on_tool_result(false, "FileNotFound: path=a.rs".to_string()) {
        ToolStep::Continue { effects } => {
            assert_eq!(effects.len(), 3);
            assert!(matches!(&effects[0], Effect::Progress(AgentProgress::PatchApplyError { path, message })
                if path == "a.rs" && message == "FileNotFound: path=a.rs"));
        }
        _ => panic!("expected the run to go on"),
    }
}

#[test]
fn external_tools_are_marked() {
    let mut run = AgentRun::start("S", "", "task", 20);
    generate(&mut run);
    match run.on_response(&call_text("mcp::context7::query-docs", "{\"q\": \"x\"}")) {
        ResponseStep::RunTool { external, effects, .. } => {
            assert!(external);
            assert_eq!(effects.len(), 3);
        }
        _ => panic!("expected a tool to run"),
    }
    assert!(matches!(run.on_tool_result(true, "docs".to_string()), ToolStep::Continue { .. }));
    assert!(run.conversation.ends_with("Tool result: OK. docs\n\nAssistant: "));
}

#[test]
fn read_file_is_followed_by_a_hint() {
    let mut run = AgentRun::start("S", "", "task", 20);
    generate(&mut run);
    assert!(matches!(run.on_response(&call_text("read_file", "{\"path\": \"a\"}")), ResponseStep::RunTool { .. }));
    assert!(matches!(run.on_tool_result(true, "text".to_string()), ToolStep::Continue { .. }));
    assert!(run.conversation.ends_with(
        "Tool result: OK. text\n\n[System: You have the file content. Now use apply_patch to modify it according to the user's request, or create_file for new files. Do NOT stop.]\n\nAssistant: "
    ));
}

#[test]
fn failed_generation_closes_the_session_with_an_error() {
    let mut run = AgentRun::start("S", "", "task", 20);
    generate(&mut run);
    let t = run.fail_generation(ProviderError::Generation("stream broke".to_string()));
    assert_closed(&t, RunStatus::Error, "Error: provider error: Generation failed: stream broke");
    assert!(t.effects.iter().any(|e| matches!(e, Effect::Audit(AuditEvent::Error { message }) if message == "stream broke")));
    assert!(matches!(t.outcome, Err(AiRuntimeError::Provider(ProviderError::Generation(_)))));
    assert_eq!(run.phase, Phase::Finished);
}

#[test]
fn chunks_build_the_response() {
    let mut response = String::new();
    assert!(matches!(absorb_chunk(&mut response, &AiChunk::Start), ChunkStep::More));
    assert!(matches!(absorb_chunk(&mut response, &AiChunk::Token { value: "Hel".to_string() }), ChunkStep::More));
    assert!(matches!(absorb_chunk(&mut response, &AiChunk::Token { value: "lo".to_string() }), ChunkStep::More));
    assert!(matches!(absorb_chunk(&mut response, &AiChunk::End), ChunkStep::Complete));
    assert_eq!(response, "Hello");
    match absorb_chunk(&mut response, &AiChunk::Error { error: "bad".to_string() }) {
        ChunkStep::Failed(message) => assert_eq!(message, "bad"),
        _ => panic!("expected a failure"),
    }
    assert_eq!(response, "Hello");
}

#[test]
fn session_opens_with_eight_effects() {
    let environment = AuditEnvironment { os: "linux".to_string(), arch: "x86_64".to_string(), offline: false };
    let effects = opening_effects(
        "sid",
        "  fix it ",
        TaskRole::Coding,
        "deepseek-coder",
        "local-deepseek",
        &environment,
        "2024-01-01T00:00:00+00:00",
    );
    assert_eq!(effects.len(), 8);
    match &effects[0] {
        Effect::Audit(AuditEvent::SessionStart { session_id, mode, task, policy, environment }) => {
            assert_eq!(session_id, "sid");
            assert_eq!(mode, "agent");
            assert_eq!(task, "fix it");
            assert_eq!(policy, "default");
            assert_eq!(environment.as_ref().unwrap().os, "linux");
        }
        _ => panic!("expected the start of the session"),
    }
    match &effects[1] {
        Effect::SaveMeta(meta) => {
            assert_eq!(meta.status, "running");
            assert_eq!(meta.ended_at, None);
            assert_eq!(meta.started_at, "2024-01-01T00:00:00+00:00");
            assert_eq!(meta.task, "fix it");
        }
        _ => panic!("expected the summary"),
    }
    assert!(matches!(&effects[2], Effect::Audit(AuditEvent::TaskClassified { role, reason })
        if role == "coding" && reason == "TaskClassifier (rule-based)"));
    assert!(matches!(&effects[3], Effect::Audit(AuditEvent::ModelSelected { role, model, provider })
        if role == "coding" && model == "deepseek-coder" && provider == "local-deepseek"));
    assert!(matches!(&effects[4], Effect::Progress(AgentProgress::SessionStarted { session_id }) if session_id == "sid"));
    assert!(matches!(&effects[5], Effect::Progress(AgentProgress::ModelSelected { role, model_id })
        if role == "coding" && model_id == "deepseek-coder"));
    assert!(matches!(&effects[6], Effect::Log(line) if line == "agent_start role=coding model=deepseek-coder"));
    assert!(matches!(&effects[7], Effect::Log(line) if line == "agent_start user_msg_len=9"));
}

#[test]
fn failure_notice_names_the_error() {
    match failure_notice(&AiRuntimeError::NoProvider) {
        AgentProgress::Done { message } => assert_eq!(message, "Error: no provider available for this mode"),
        _ => panic!("expected the final message"),
    }
}
