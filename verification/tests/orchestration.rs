use ide_agent::orchestration::{
    default_model, default_model_roles, first_valid_roles, ModelRolesConfig, RoleConfig,
    RoleResolver, TaskClassifier, TaskRole,
};
use ide_agent::providers::AiMode;

fn entry(role: &str, model: &str) -> (String, RoleConfig) {
    (role.to_string(), RoleConfig { model: model.to_string(), reason: None })
}

#[test]
fn modes_other_than_agent_and_explain_fix_the_role() {
    assert_eq!(TaskClassifier::classify(AiMode::Chat, "refactor the code"), TaskRole::Chat);
    assert_eq!(TaskClassifier::classify(AiMode::Refactor, ""), TaskRole::Coding);
    assert_eq!(TaskClassifier::classify(AiMode::Generate, "plan"), TaskRole::Coding);
}

#[test]
fn explain_looks_for_refactoring_and_traces() {
    assert_eq!(TaskClassifier::classify(AiMode::Explain, "Please REFACTOR this"), TaskRole::Coding);
    assert_eq!(TaskClassifier::classify(AiMode::Explain, "сделай Рефакторинг"), TaskRole::Coding);
    assert_eq!(TaskClassifier::classify(AiMode::Explain, "see the Stack"), TaskRole::Analysis);
    assert_eq!(TaskClassifier::classify(AiMode::Explain, "what is this"), TaskRole::Chat);
}

#[test]
fn agent_mode_goes_by_keywords_in_order() {
    let classify = |m: &str| TaskClassifier::classify(AiMode::Agent, m);
    assert_eq!(classify("create a rust project named demo"), TaskRole::Coding);
    assert_eq!(classify("Исправь ошибку"), TaskRole::Coding);
    assert_eq!(classify("make a plan and create files"), TaskRole::Coding);
    assert_eq!(classify("make a plan"), TaskRole::Planning);
    assert_eq!(classify("разбей задачу"), TaskRole::Planning);
    assert_eq!(classify("analyze the logs"), TaskRole::Analysis);
    assert_eq!(classify("write the README"), TaskRole::Documentation);
    assert_eq!(classify("обнови документацию"), TaskRole::Documentation);
    assert_eq!(classify("hello"), TaskRole::Planning);
    assert_eq!(classify(""), TaskRole::Planning);
}

#[test]
fn classification_is_repeatable() {
    for message in ["fix it", "plan", "trace", "docs", "nothing"] {
        for mode in [AiMode::Chat, AiMode::Explain, AiMode::Refactor, AiMode::Generate, AiMode::Agent] {
            assert_eq!(
                TaskClassifier::classify(mode, message),
                TaskClassifier::classify(mode, message)
            );
        }
    }
}

#[test]
fn role_names() {
    assert_eq!(TaskRole::Chat.as_str(), "chat");
    assert_eq!(TaskRole::Coding.as_str(), "coding");
    assert_eq!(TaskRole::Planning.as_str(), "planning");
    assert_eq!(TaskRole::Analysis.as_str(), "analysis");
    assert_eq!(TaskRole::Documentation.as_str(), "documentation");
}

#[test]
fn default_table_maps_roles_to_two_models() {
    let table = default_model_roles();
    assert_eq!(table.default, "gigachat3");
    assert_eq!(default_model(), "gigachat3");
    assert_eq!(RoleResolver::resolve(TaskRole::Chat, &table), "gigachat3");
    assert_eq!(RoleResolver::resolve(TaskRole::Coding, &table), "deepseek-coder");
    assert_eq!(RoleResolver::resolve(TaskRole::Planning, &table), "gigachat3");
    assert_eq!(RoleResolver::resolve(TaskRole::Analysis, &table), "deepseek-coder");
    assert_eq!(RoleResolver::resolve(TaskRole::Documentation, &table), "gigachat3");
    assert_eq!(table.roles.len(), 3);
    let listed: Vec<&str> = table.roles.iter().map(|(role, _)| role.as_str()).collect();
    assert_eq!(listed, vec!["chat", "coding", "analysis"]);
    assert_eq!(table.roles[0].1.reason.as_deref(), Some("dialog, explanations, legal-safe"));
    assert_eq!(table.roles[1].1.reason.as_deref(), Some("code generation, refactor, diff"));
    assert_eq!(table.roles[2].1.reason.as_deref(), Some("log analysis, stack traces"));
    let mut models: Vec<&str> = table.roles.iter().map(|(_, r)| r.model.as_str()).collect();
    models.sort();
    models.dedup();
    assert_eq!(models, vec!["deepseek-coder", "gigachat3"]);
    assert!(table.is_well_formed());
}

#[test]
fn missing_role_falls_back_to_the_default() {
    let config = ModelRolesConfig { default: "fallback-model".to_string(), roles: vec![entry("coding", "coder")] };
    assert_eq!(RoleResolver::resolve(TaskRole::Coding, &config), "coder");
    assert_eq!(RoleResolver::resolve(TaskRole::Chat, &config), "fallback-model");
}

#[test]
fn later_entry_of_a_role_counts() {
    let config = ModelRolesConfig {
        default: "d".to_string(),
        roles: vec![entry("coding", "first"), entry("chat", "c"), entry("coding", "second")],
    };
    assert_eq!(RoleResolver::resolve(TaskRole::Coding, &config), "second");
}

#[test]
fn first_readable_policy_wins() {
    let project = ModelRolesConfig { default: "project".to_string(), roles: vec![] };
    let home = ModelRolesConfig { default: "home".to_string(), roles: vec![] };
    assert_eq!(first_valid_roles(vec![Some(project.clone()), Some(home.clone())]).default, "project");
    assert_eq!(first_valid_roles(vec![None, Some(home)]).default, "home");
    let built_in = first_valid_roles(vec![None, None]);
    assert_eq!(built_in.default, "gigachat3");
    assert_eq!(built_in.roles.len(), 3);
    assert_eq!(first_valid_roles(vec![]).roles.len(), 3);
}

#[test]
fn insert_replaces_the_entry_of_a_role() {
    let mut config = ModelRolesConfig::new("d".to_string());
    config.insert("coding".to_string(), RoleConfig { model: "first".to_string(), reason: None });
    config.insert("chat".to_string(), RoleConfig { model: "c".to_string(), reason: None });
    config.insert("coding".to_string(), RoleConfig { model: "second".to_string(), reason: None });
    assert!(config.is_well_formed());
    assert_eq!(config.roles.len(), 2);
    assert_eq!(RoleResolver::resolve(TaskRole::Coding, &config), "second");
    assert_eq!(RoleResolver::resolve(TaskRole::Chat, &config), "c");
    assert_eq!(RoleResolver::resolve(TaskRole::Planning, &config), "d");
    let twice = ModelRolesConfig { default: "d".to_string(), roles: vec![entry("chat", "a"), entry("chat", "b")] };
    assert!(!twice.is_well_formed());
}
