use ide_agent::error::AiRuntimeError;
use ide_agent::orchestration::{default_model_roles, TaskRole};
use ide_agent::providers::{AiMode, ProviderCapabilities, ProviderError};
use ide_agent::selector::{Pass, ProbeStep, ProviderInfo, ProviderSelector};

fn provider(id: &str, name: &str, model: Option<&str>) -> ProviderInfo {
    ProviderInfo {
        id: id.to_string(),
        name: name.to_string(),
        model_id: model.map(String::from),
        capabilities: ProviderCapabilities::all_modes(None),
    }
}

fn providers() -> Vec<ProviderInfo> {
    vec![
        provider("local-gigachat", "GigaChat3 10B", Some("gigachat3")),
        provider("local-deepseek", "DeepSeek-Coder 6.7B", Some("deepseek-coder")),
        provider("cloud-openai", "OpenAI", None),
    ]
}

#[test]
fn policy_model_is_chosen_where_available() {
    let s = ProviderSelector::select(
        &providers(),
        &vec![true, true, true],
        AiMode::Agent,
        "create a file",
        None,
        &default_model_roles(),
    )
    .unwrap();
    assert_eq!(s.provider, 1);
    assert_eq!(s.role, TaskRole::Coding);
    assert_eq!(s.model_id, "deepseek-coder");
    assert_eq!(s.policy_source.as_deref(), Some("model_roles"));
}

#[test]
fn fallback_takes_the_first_available_provider() {
    let s = ProviderSelector::select(
        &providers(),
        &vec![true, false, true],
        AiMode::Agent,
        "create a file",
        None,
        &default_model_roles(),
    )
    .unwrap();
    assert_eq!(s.provider, 0);
    assert_eq!(s.model_id, "gigachat3");
    assert_eq!(s.policy_source.as_deref(), Some("fallback"));
}

#[test]
fn fallback_reports_the_name_where_there_is_no_model_id() {
    let s = ProviderSelector::select(
        &providers(),
        &vec![false, false, true],
        AiMode::Chat,
        "hi",
        None,
        &default_model_roles(),
    )
    .unwrap();
    assert_eq!(s.provider, 2);
    assert_eq!(s.role, TaskRole::Chat);
    assert_eq!(s.model_id, "OpenAI");
    assert_eq!(s.policy_source.as_deref(), Some("fallback"));
}

#[test]
fn no_available_provider_is_an_error() {
    let r = ProviderSelector::select(
        &providers(),
        &vec![false, false, false],
        AiMode::Agent,
        "x",
        None,
        &default_model_roles(),
    );
    assert!(matches!(r, Err(AiRuntimeError::NoProvider)));
    let r = ProviderSelector::select(&vec![], &vec![], AiMode::Agent, "x", None, &default_model_roles());
    assert!(matches!(r, Err(AiRuntimeError::NoProvider)));
}

#[test]
fn preferred_provider_is_tried_first_but_does_not_override_the_policy() {
    assert_eq!(
        ProviderSelector::candidate_order(&providers(), Some("cloud-openai")),
        vec![2, 0, 1]
    );
    assert_eq!(
        ProviderSelector::candidate_order(&providers(), Some("local-deepseek")),
        vec![1, 0, 2]
    );
    assert_eq!(ProviderSelector::candidate_order(&providers(), Some("unknown")), vec![0, 1, 2]);
    assert_eq!(ProviderSelector::candidate_order(&providers(), None), vec![0, 1, 2]);
    let roles = default_model_roles();
    let s = ProviderSelector::select(
        &providers(),
        &vec![true, true, true],
        AiMode::Agent,
        "fix the bug",
        Some("cloud-openai"),
        &roles,
    )
    .unwrap();
    assert_eq!(s.provider, 1);
    assert_eq!(s.policy_source.as_deref(), Some("model_roles"));
    let s = ProviderSelector::select(
        &providers(),
        &vec![true, false, true],
        AiMode::Agent,
        "fix the bug",
        Some("cloud-openai"),
        &roles,
    )
    .unwrap();
    assert_eq!(s.provider, 2);
    assert_eq!(s.policy_source.as_deref(), Some("fallback"));
}

#[test]
fn providers_that_do_not_serve_the_mode_are_skipped() {
    let mut list = providers();
    list[1].capabilities = ProviderCapabilities { modes: vec![AiMode::Chat], max_context_tokens: None };
    let s = ProviderSelector::select(
        &list,
        &vec![true, true, true],
        AiMode::Agent,
        "fix the bug",
        None,
        &default_model_roles(),
    )
    .unwrap();
    assert_eq!(s.provider, 0);
    assert_eq!(s.policy_source.as_deref(), Some("fallback"));
    assert_eq!(
        ProviderSelector::select_legacy(&list, &vec![false, true, true], AiMode::Agent, None).unwrap(),
        2
    );
    assert_eq!(
        ProviderSelector::select_legacy(&list, &vec![false, true, true], AiMode::Chat, None).unwrap(),
        1
    );
}

#[test]
fn run_probes_candidates_in_two_passes() {
    let list = providers();
    let roles = default_model_roles();
    let mut run = ProviderSelector::begin(&list, AiMode::Agent, "fix", None, &roles);
    assert_eq!(run.target_model, "deepseek-coder");
    assert_eq!(run.pass, Pass::PolicyMatch);
    // First pass: an available provider of another model is passed over.
    assert_eq!(run.next_probe(&list), Some(0));
    assert!(matches!(run.on_probe(&list, Ok(true)), ProbeStep::Continue));
    assert_eq!(run.next_probe(&list), Some(1));
    assert!(matches!(run.on_probe(&list, Ok(false)), ProbeStep::Continue));
    assert_eq!(run.next_probe(&list), Some(2));
    assert!(matches!(run.on_probe(&list, Ok(true)), ProbeStep::Continue));
    // Second pass starts over.
    assert_eq!(run.next_probe(&list), Some(0));
    assert_eq!(run.pass, Pass::Fallback);
    match run.on_probe(&list, Ok(true)) {
        ProbeStep::Selected(s) => {
            assert_eq!(s.provider, 0);
            assert_eq!(s.model_id, "gigachat3");
        }
        _ => panic!("expected a selection"),
    }
}

#[test]
fn failed_probe_ends_the_selection() {
    let list = providers();
    let roles = default_model_roles();
    let mut run = ProviderSelector::begin(&list, AiMode::Agent, "fix", None, &roles);
    assert_eq!(run.next_probe(&list), Some(0));
    match run.on_probe(&list, Err(ProviderError::Unavailable("down".to_string()))) {
        ProbeStep::Failed(AiRuntimeError::Provider(ProviderError::Unavailable(d))) => assert_eq!(d, "down"),
        _ => panic!("expected a failure"),
    }
}

#[test]
fn run_ends_without_a_provider() {
    let list = providers();
    let roles = default_model_roles();
    let mut run = ProviderSelector::begin(&list, AiMode::Agent, "fix", None, &roles);
    let mut probes = 0;
    while let Some(_) = run.next_probe(&list) {
        probes += 1;
        assert!(matches!(run.on_probe(&list, Ok(false)), ProbeStep::Continue));
    }
    assert_eq!(probes, 6);
}
