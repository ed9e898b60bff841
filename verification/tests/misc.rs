use ide_agent::error::AiRuntimeError;
use ide_agent::gigachat::{retry_delay_ms, token_is_fresh, GigaChatError, GigaChatModel};
use ide_agent::local::{
    answer_tokens, context_size_for, hf_api_tree_url, hf_resolve_url, is_gguf_name, pick_gguf,
    pick_model_file, pick_model_files, HfTreeItem, LocalConfig, LocalProviderError,
    ModelVariant,
};
use ide_agent::mcp::needs_refresh;
use ide_agent::order::sort_pairs;
use ide_agent::text::is_space;
use ide_agent::ui::{
    add_openai_entry, current_file_of, git_status_of, provider_from_entry, AiConfig,
    AiRequestPayload, ProviderEntry,
};
use ide_agent::mcp::{tools_from_result, McpClient, McpConfig, McpError, McpServerConfig, McpToolRegistry};
use ide_agent::project::{ProjectError, ProjectService, RootProbe};
use ide_agent::providers::{AiChunk, AiMode, ApiProvider, ProviderError, ProviderType};
use ide_agent::router::{AiRequest, CommandRouter, RouterError};
use ide_agent::runtime::{collect_response, editor_context_from_request, extract_mode_and_input, AiRuntime};
use ide_agent::text::{decimal_string, trim_str, truncate_bytes};
use ide_agent::workspace::{plan_project, WorkspaceError};
use std::path::PathBuf;

fn value(text: &str) -> serde_json::Value {
    serde_json::from_str(text).unwrap()
}

#[test]
fn router_accepts_filled_requests() {
    let router = CommandRouter::new();
    assert!(router.validate(&AiRequest::Chat { message: "hi".to_string() }).is_ok());
    assert!(router.validate(&AiRequest::Agent { message: " do ".to_string() }).is_ok());
    assert!(router
        .validate(&AiRequest::Explain { path: "a.rs".to_string(), selection: None })
        .is_ok());
}

#[test]
fn router_refuses_blank_requests() {
    let router = CommandRouter::new();
    let check = |request: AiRequest, text: &str| match router.validate(&request) {
        Err(RouterError::Validation(detail)) => assert_eq!(detail, text),
        _ => panic!("expected a refusal"),
    };
    check(AiRequest::Chat { message: " \n".to_string() }, "Message cannot be empty");
    check(AiRequest::Explain { path: "".to_string(), selection: None }, "Path cannot be empty");
    check(
        AiRequest::Refactor { path: "a".to_string(), selection: " ".to_string(), instruction: "x".to_string() },
        "Path and selection required",
    );
    check(AiRequest::Generate { path: "a".to_string(), prompt: "\t".to_string() }, "Path and prompt required");
    check(AiRequest::Agent { message: "\u{a0}\u{2003}".to_string() }, "Agent message cannot be empty");
    assert_eq!(RouterError::Validation("x".to_string()).message(), "Validation failed: x");
    assert_eq!(RouterError::NoProject.message(), "No project opened");
}

#[test]
fn trimming_follows_unicode_white_space() {
    for text in ["  a b  ", "\u{a0}x\u{2003}", "\u{feff}x", "\n\t\r x \u{3000}", "", "   ", "\u{200b}x"] {
        assert_eq!(trim_str(text), text.trim(), "text {:?}", text);
    }
}

#[test]
fn decimal_and_truncation() {
    assert_eq!(decimal_string(0), "0");
    assert_eq!(decimal_string(10), "10");
    assert_eq!(decimal_string(u128::MAX), u128::MAX.to_string());
    assert_eq!(truncate_bytes("hello", 3), "hel");
    assert_eq!(truncate_bytes("hello", 10), "hello");
    assert_eq!(truncate_bytes("яя", 3), "я");
    assert_eq!(truncate_bytes("яя", 1), "");
}

#[test]
fn requests_have_a_mode_and_an_input() {
    assert_eq!(
        extract_mode_and_input(&AiRequest::Chat { message: "m".to_string() }),
        (AiMode::Chat, "m".to_string())
    );
    assert_eq!(
        extract_mode_and_input(&AiRequest::Explain { path: "p".to_string(), selection: None }),
        (AiMode::Explain, "Explain this code".to_string())
    );
    assert_eq!(
        extract_mode_and_input(&AiRequest::Explain { path: "p".to_string(), selection: Some("s".to_string()) }),
        (AiMode::Explain, "s".to_string())
    );
    assert_eq!(
        extract_mode_and_input(&AiRequest::Refactor {
            path: "p".to_string(),
            selection: "s".to_string(),
            instruction: "i".to_string()
        }),
        (AiMode::Refactor, "i".to_string())
    );
    assert_eq!(
        extract_mode_and_input(&AiRequest::Generate { path: "p".to_string(), prompt: "g".to_string() }),
        (AiMode::Generate, "g".to_string())
    );
    assert_eq!(
        extract_mode_and_input(&AiRequest::Agent { message: "a".to_string() }),
        (AiMode::Agent, "a".to_string())
    );
}

#[test]
fn editor_context_follows_the_request() {
    let file = (PathBuf::from("/p/a.rs"), "content".to_string());
    let chat = editor_context_from_request(&AiRequest::Chat { message: "m".to_string() }, Some(&file), Some("sel"));
    assert_eq!((chat.path, chat.content, chat.selection), (None, None, Some("sel".to_string())));
    let explain = AiRequest::Explain { path: "named.rs".to_string(), selection: None };
    let with_file = editor_context_from_request(&explain, Some(&file), None);
    assert_eq!(with_file.path, Some("/p/a.rs".to_string()));
    assert_eq!(with_file.content, Some("content".to_string()));
    assert_eq!(with_file.selection, None);
    let without = editor_context_from_request(&explain, None, None);
    assert_eq!((without.path, without.content), (Some("named.rs".to_string()), None));
}

#[test]
fn answers_are_gathered_from_chunks() {
    let token = |t: &str| AiChunk::Token { value: t.to_string() };
    let r = collect_response(&vec![AiChunk::Start, token("a"), token("b"), AiChunk::End, token("c")], "M").unwrap();
    assert_eq!((r.content.as_str(), r.model.as_str(), r.tokens_used, r.latency_ms), ("ab", "M", None, 0));
    let r = collect_response(&vec![AiChunk::Start], "M").unwrap();
    assert_eq!(r.content, "(no response)");
    let r = collect_response(&vec![AiChunk::Start, AiChunk::End], "M").unwrap();
    assert_eq!(r.content, "");
    let r = collect_response(&vec![token("a"), AiChunk::Error { error: "bad".to_string() }], "M");
    assert_eq!(r.unwrap_err(), "bad");
}

#[test]
fn runtime_holds_providers() {
    let mut runtime = AiRuntime::new();
    assert!(runtime.providers().is_empty());
    assert_eq!(runtime.preferred_provider_id(), None);
    runtime.set_preferred_provider(Some("cloud-openai".to_string()));
    assert_eq!(runtime.preferred_provider_id(), Some("cloud-openai"));
    assert_eq!(runtime.context_limits().max_files, 50);
}

#[test]
fn api_providers() {
    let p = ApiProvider::openai(None);
    assert_eq!((p.id.as_str(), p.name.as_str()), ("cloud-openai", "OpenAI"));
    assert_eq!(p.base_url.as_deref(), Some("https://api.openai.com/v1"));
    assert!(!p.is_available());
    assert!(matches!(p.generate(), Err(ProviderError::Unavailable(d)) if d == "API key not configured"));
    let p = ApiProvider::kimi_with_id("k".to_string(), Some("key".to_string()));
    assert_eq!((p.id.as_str(), p.name.as_str()), ("k", "Kimi (Moonshot)"));
    assert_eq!(p.base_url.as_deref(), Some("https://api.moonshot.cn/v1"));
    assert!(p.is_available());
    let chunks = p.generate().unwrap();
    assert_eq!(chunks.len(), 2);
    assert!(matches!(&chunks[1], AiChunk::Error { error } if error == "API provider not yet implemented"));
    let p = ApiProvider::mistral(Some("k".to_string()));
    assert_eq!((p.id.as_str(), p.name.as_str()), ("cloud-mistral", "Mistral AI"));
    assert_eq!(ApiProvider::kimi(None).id, "cloud-kimi");
    assert_eq!(ApiProvider::mistral_with_id("m".to_string(), None).base_url.as_deref(), Some("https://api.mistral.ai/v1"));
    assert_eq!(ApiProvider::openai_with_id("o".to_string(), None).id, "o");
    let c = ApiProvider::custom("c".to_string(), "Custom API".to_string(), "key".to_string(), "http://x".to_string());
    assert_eq!(c.api_key.as_deref(), Some("key"));
    assert_eq!(c.provider_type(), ProviderType::Cloud);
    let caps = c.capabilities();
    assert_eq!(caps.max_context_tokens, Some(200_000));
    for mode in [AiMode::Chat, AiMode::Explain, AiMode::Refactor, AiMode::Generate, AiMode::Agent] {
        assert!(caps.supports(mode));
    }
}

#[test]
fn error_messages() {
    assert_eq!(AiRuntimeError::NoProvider.message(), "no provider available for this mode");
    assert_eq!(
        AiRuntimeError::Provider(ProviderError::Unavailable("x".to_string())).message(),
        "provider error: Provider unavailable: x"
    );
    assert_eq!(AiRuntimeError::PromptBuild("x".to_string()).message(), "prompt build failed: x");
    assert_eq!(AiRuntimeError::PostProcess("x".to_string()).message(), "response post-processing failed: x");
    assert_eq!(McpError::Config("x".to_string()).message(), "config: x");
    assert_eq!(McpError::Http("x".to_string()).message(), "HTTP: x");
    assert_eq!(McpError::JsonRpc("x".to_string()).message(), "JSON-RPC error: x");
    assert_eq!(McpError::Io("x".to_string()).message(), "IO: x");
    assert_eq!(LocalProviderError::ModelNotFound("m".to_string()).message(), "model not found: m");
    assert_eq!(LocalProviderError::Io("e".to_string()).message(), "IO error: e");
    assert_eq!(GigaChatError::OAuth("e".to_string()).message(), "OAuth failed: e");
    assert_eq!(GigaChatError::Timeout.message(), "Timeout");
    assert_eq!(ProjectError::NotOpened.message(), "Project not opened");
}

#[test]
fn projects_are_planned_from_templates() {
    let plan = plan_project("rust", Some("demo"), '/').unwrap();
    assert_eq!(plan.name, "demo");
    assert_eq!(plan.files.len(), 2);
    assert_eq!(plan.files[0].path, "Cargo.toml");
    assert_eq!(
        plan.files[0].content,
        "[package]\nname = \"app\"\nversion = \"0.1.0\"\nedition = \"2021\"\n\n[dependencies]\n"
    );
    assert_eq!(plan.files[1].path, "src/main.rs");
    let plan = plan_project("python", None, '/').unwrap();
    assert_eq!(plan.name, "python-project");
    assert_eq!(plan.files[0].path, "requirements.txt");
    assert_eq!(plan.files[1].path, "main.py");
    let plan = plan_project("node", Some(""), '/').unwrap();
    assert_eq!(plan.name, "node-project");
    assert_eq!(plan.files[1].content, "console.log(\"Hello, world!\");\n");
    assert!(plan_project("empty", Some("e"), '/').unwrap().files.is_empty());
}

#[test]
fn bad_templates_and_names_are_refused() {
    assert!(matches!(plan_project("go", None, '/'), Err(WorkspaceError::InvalidTemplate(t)) if t == "go"));
    for name in ["a/b", "..", ".", "a\\b"] {
        assert!(
            matches!(plan_project("rust", Some(name), '\\'), Err(WorkspaceError::InvalidName(n)) if n == name),
            "name {:?}",
            name
        );
    }
    assert!(plan_project("rust", Some("a\\b"), '/').is_ok());
    assert_eq!(
        WorkspaceError::InvalidTemplate("go".to_string()).message(),
        "Invalid template: go. Use: empty, rust, python, node"
    );
    assert_eq!(WorkspaceError::PathExists(PathBuf::from("/p/x")).message(), "Path already exists: /p/x");
}

#[test]
fn project_service_opens_directories() {
    let mut service = ProjectService::new();
    assert!(service.current().is_none());
    let probe = RootProbe { is_directory: true, workspace: Ok(()) };
    assert!(service.open(PathBuf::from("/home/me/demo"), probe).is_ok());
    assert_eq!(service.current().unwrap().name, "demo");
    assert_eq!(service.current().unwrap().root, PathBuf::from("/home/me/demo"));
    let probe = RootProbe { is_directory: false, workspace: Ok(()) };
    match service.open(PathBuf::from("/nowhere"), probe) {
        Err(ProjectError::InvalidPath(detail)) => assert_eq!(detail, "/nowhere"),
        _ => panic!("expected a refusal"),
    }
    assert_eq!(service.current().unwrap().name, "demo");
    let probe = RootProbe { is_directory: true, workspace: Err("denied".to_string()) };
    match service.open(PathBuf::from("/x"), probe) {
        Err(ProjectError::InvalidPath(detail)) => assert_eq!(detail, "Workspace init failed: denied"),
        _ => panic!("expected a refusal"),
    }
    let probe = RootProbe { is_directory: true, workspace: Ok(()) };
    assert!(service.open(PathBuf::from("/"), probe).is_ok());
    assert_eq!(service.current().unwrap().name, "project");
    service.close();
    assert!(service.current().is_none());
}

#[test]
fn local_models() {
    assert_eq!(ModelVariant::default(), ModelVariant::GigaChat);
    assert_eq!(ModelVariant::DeepSeekCoder.model_id(), "deepseek-coder");
    assert_eq!(ModelVariant::SmolLM2.display_name(), "SmolLM2 1.7B");
    assert_eq!(ModelVariant::Full.provider_id(), "local-gigachat-702b");
    assert_eq!(hf_resolve_url("a/b", "f.gguf"), "https://huggingface.co/a/b/resolve/main/f.gguf");
    assert_eq!(hf_api_tree_url("a/b", ""), "https://huggingface.co/api/models/a/b/tree/main");
    assert_eq!(hf_api_tree_url("a/b", "x/y z"), "https://huggingface.co/api/models/a/b/tree/main/x%2Fy z");
    let base = PathBuf::from("/data");
    let config = LocalConfig::default_config(Some(&base));
    assert_eq!(config.models_dir, PathBuf::from("/data/kengaide/models"));
    assert_eq!(LocalConfig::default_models_dir(None), PathBuf::from("./kengaide/models"));
    assert_eq!(LocalConfig::default_config(None).models_dir, PathBuf::from("./kengaide/models"));
    assert_eq!(config.context_size, 8192);
    assert_eq!(config.max_tokens, 2048);
    assert_eq!(config.n_threads, None);
    assert_eq!(config.model_variant, ModelVariant::GigaChat);
    assert_eq!(config.model_dir(), PathBuf::from("/data/kengaide/models/gigachat3-10b-a18b"));
    assert_eq!(config.gigachat3_dir(), config.model_dir());
    let manager = ide_agent::local::ModelManager::new(config);
    let files: Vec<String> =
        ["notes.txt", "m-00002-of-00002.gguf", "m-00001-of-00002.gguf", ".gguf", "x.GGUF"]
            .iter()
            .map(|s| s.to_string())
            .collect();
    let other: Vec<String> = vec!["notes.txt".to_string()];
    let file = PathBuf::from("/data/kengaide/models/gigachat3-10b-a18b/m-00001-of-00002.gguf");
    assert_eq!(manager.find_gguf_path(Some(&files)), Some(file.clone()));
    assert_eq!(manager.find_gguf_path(Some(&other)), None);
    assert_eq!(manager.find_gguf_path(None), None);
    assert!(manager.is_loaded("gigachat3", Some(&files)));
    assert!(!manager.is_loaded("gigachat3", None));
    assert!(!manager.is_loaded("gigachat3", Some(&other)));
    assert!(!manager.is_loaded("other", Some(&files)));
    assert_eq!(manager.verify_files(Some(&files), true).unwrap(), true);
    assert_eq!(manager.verify_files(Some(&files), false).unwrap(), false);
    assert_eq!(manager.verify_files(None, true).unwrap(), false);
    assert!(manager.verify_integrity(&file).unwrap());
    let models = manager.list_models(Some(&files)).unwrap();
    assert_eq!(models.len(), 1);
    assert_eq!((models[0].id.as_str(), &models[0].path, models[0].loaded), ("gigachat3", &file, true));
    assert!(manager.list_models(None).unwrap().is_empty());
    assert!(manager.list_models(Some(&other)).unwrap().is_empty());
    assert_eq!(manager.hot_swap("gigachat3", Some(&files)).unwrap(), file);
    assert_eq!(manager.hot_swap("whatever", Some(&files)).unwrap(), file);
    assert!(matches!(manager.hot_swap("x", None), Err(LocalProviderError::ModelNotFound(n)) if n == "x"));
}

#[test]
fn catalogue_is_empty() {
    let manager = ide_agent::model_manager::ModelManager::new(PathBuf::from("/m"));
    assert!(manager.list_available().is_empty());
    assert!(!manager.is_loaded("any"));
    assert_eq!(manager.models_dir(), &PathBuf::from("/m"));
    assert_eq!(manager.download("x").unwrap_err().message(), "Download failed: Download not implemented");
}

#[test]
fn cloud_retries() {
    assert_eq!(GigaChatModel::GigaChatUltra.as_str(), "GigaChat-Ultra");
    assert_eq!(retry_delay_ms(&GigaChatError::Http("x".to_string()), 0), Some(500));
    assert_eq!(retry_delay_ms(&GigaChatError::Http("x".to_string()), 1), Some(1000));
    assert_eq!(retry_delay_ms(&GigaChatError::Http("x".to_string()), 2), None);
    assert_eq!(retry_delay_ms(&GigaChatError::Api("status 503: busy".to_string()), 0), Some(500));
    assert_eq!(retry_delay_ms(&GigaChatError::Api("status 404".to_string()), 0), None);
    assert_eq!(retry_delay_ms(&GigaChatError::Timeout, 0), None);
    assert!(token_is_fresh(161, 100));
    assert!(!token_is_fresh(160, 100));
    assert!(!token_is_fresh(i64::MAX, i64::MAX - 10));
}

#[test]
fn tool_lists_are_read_from_answers() {
    let answer = value(
        "{\"tools\": [{\"name\": \"a\", \"description\": \"A\", \"inputSchema\": {\"type\": \"object\"}}, {\"name\": \"b\"}]}",
    );
    let tools = tools_from_result(&answer, "srv").unwrap();
    assert_eq!(tools.len(), 2);
    assert_eq!((tools[0].server.as_str(), tools[0].name.as_str()), ("srv", "a"));
    assert_eq!(tools[0].description.as_deref(), Some("A"));
    assert_eq!(tools[0].input_schema, value("{\"type\": \"object\"}"));
    assert_eq!(tools[1].description, None);
    assert_eq!(tools[1].input_schema, value("{}"));
    assert!(matches!(tools_from_result(&value("{}"), "s"), Err(McpError::JsonRpc(t)) if t == "tools/list: missing tools array"));
    assert!(matches!(tools_from_result(&value("{\"tools\": {}}"), "s"), Err(McpError::JsonRpc(t)) if t == "tools/list: missing tools array"));
    assert!(matches!(
        tools_from_result(&value("{\"tools\": [{\"name\": \"a\"}, {\"title\": \"b\"}]}"), "s"),
        Err(McpError::JsonRpc(t)) if t == "tools/list: tool missing name"
    ));
    assert!(tools_from_result(&value("{\"tools\": []}"), "s").unwrap().is_empty());
}

#[test]
fn registry_names_servers() {
    let config = McpConfig {
        mcp_servers: vec![
            ("context7".to_string(), McpServerConfig { url: "http://a".to_string(), headers: vec![] }),
            (
                "/etc/servers/docs.json".to_string(),
                McpServerConfig { url: "http://b".to_string(), headers: vec![("k".to_string(), "v".to_string())] },
            ),
        ],
    };
    let registry = McpToolRegistry::from_config(config).unwrap();
    assert!(registry.has_servers());
    assert_eq!(registry.get_client("context7").unwrap().url, "http://a");
    assert_eq!(registry.get_client("docs").unwrap().headers, vec![("k".to_string(), "v".to_string())]);
    assert!(registry.get_client("none").is_none());
    let empty = McpToolRegistry::from_config(McpConfig::default()).unwrap();
    assert!(!empty.has_servers());
    let mut client = McpClient::new(&McpServerConfig { url: "u".to_string(), headers: vec![] });
    assert_eq!(client.next_request_id(), 0);
    assert_eq!(client.next_request_id(), 1);
}

#[test]
fn model_files_are_picked_from_a_listing() {
    let item = |kind: &str, path: &str, size: Option<u64>| HfTreeItem {
        item_type: kind.to_string(),
        path: path.to_string(),
        size,
    };
    let model = ModelVariant::DeepSeekCoder.hf_model();
    assert_eq!(model.repo_id, "TheBloke/deepseek-coder-6.7B-instruct-GGUF");
    let items = vec![
        item("file", "README.md", Some(1)),
        item("directory", "x.Q4_K_M.gguf", None),
        item("file", "deepseek-coder-6.7b-instruct.Q2_K.gguf", Some(2)),
        item("file", "other.Q4_K_M.gguf", None),
        item("file", "deepseek-coder-6.7b-instruct.Q4_K_M.gguf", Some(4)),
    ];
    assert_eq!(pick_model_file(&items, &model).unwrap(), ("other.Q4_K_M.gguf".to_string(), 0));
    let none = vec![item("file", "a.gguf", Some(1)), item("file", "Q4_K_M.bin", Some(1))];
    assert_eq!(
        pick_model_file(&none, &model).unwrap_err().message(),
        "download failed: GGUF file not found in TheBloke/deepseek-coder-6.7B-instruct-GGUF"
    );
    assert!(items[4].is_model_file());
    assert!(!items[0].is_model_file());
    assert_eq!(context_size_for(2048, 400), 2048 + 100 + 256);
    assert_eq!(context_size_for(2048, 4 * 8192), 8192);
    assert_eq!(context_size_for(usize::MAX, usize::MAX), 8192);
    assert_eq!(context_size_for(0, 0), 256);
    assert_eq!(answer_tokens(None), 2048);
    assert_eq!(answer_tokens(Some(100)), 100);
    assert_eq!(answer_tokens(Some(4096)), 2048);
    assert_eq!(ModelVariant::Full.metadata_name(), "GigaChat3-702B-A36B-preview");
}

#[test]
fn settings_give_providers() {
    let entry = |kind: &str, key: Option<&str>, url: Option<&str>| ProviderEntry {
        id: "entry-1".to_string(),
        provider_type: kind.to_string(),
        api_key: key.map(String::from),
        base_url: url.map(String::from),
        client_id: None,
        client_secret: None,
    };
    let p = provider_from_entry(&entry("openai", Some("k"), None)).unwrap();
    assert_eq!((p.id.as_str(), p.name.as_str(), p.api_key.as_deref()), ("entry-1", "OpenAI", Some("k")));
    let p = provider_from_entry(&entry("kimi", Some(""), None)).unwrap();
    assert_eq!((p.name.as_str(), p.api_key), ("Kimi (Moonshot)", None));
    let p = provider_from_entry(&entry("mistral", None, None)).unwrap();
    assert_eq!(p.base_url.as_deref(), Some("https://api.mistral.ai/v1"));
    let p = provider_from_entry(&entry("custom", Some("k"), Some("http://x"))).unwrap();
    assert_eq!((p.name.as_str(), p.base_url.as_deref()), ("Custom API", Some("http://x")));
    assert!(provider_from_entry(&entry("custom", Some(""), Some("http://x"))).is_none());
    assert!(provider_from_entry(&entry("custom", Some("k"), None)).is_none());
    assert!(provider_from_entry(&entry("other", Some("k"), None)).is_none());

    let mut config = AiConfig::default();
    assert_eq!(add_openai_entry(&mut config, "   ").unwrap_err(), "API key не может быть пустым");
    assert!(config.providers.is_empty());
    assert_eq!(add_openai_entry(&mut config, " sk-1 ").unwrap(), "sk-1");
    assert_eq!(add_openai_entry(&mut config, "sk-2").unwrap(), "sk-2");
    assert_eq!(config.providers[1].id, "openai-1");
    assert_eq!(config.providers[0].api_key.as_deref(), Some("sk-1"));
    assert_eq!(config.active_provider_id.as_deref(), Some("cloud-openai"));

    let status = git_status_of("main\n", " M a.rs\n?? b.rs\n\n");
    assert_eq!((status.branch.as_str(), status.changes), ("main", 2));
    assert_eq!(git_status_of("\n", "").branch, "detached");

    let payload = AiRequestPayload {
        request: AiRequest::Chat { message: "m".to_string() },
        current_file_path: Some("a".to_string()),
        current_file_content: None,
        selection: None,
    };
    assert_eq!(current_file_of(&payload), None);
}

#[test]
fn white_space_is_what_the_standard_library_says() {
    for code in 0..=0x10FFFFu32 {
        if let Some(c) = char::from_u32(code) {
            assert_eq!(is_space(c), c.is_whitespace(), "code point {:#x}", code);
        }
    }
}

#[test]
fn gguf_names_agree_with_the_extension_of_a_path() {
    for name in ["a.gguf", ".gguf", "..gguf", "gguf", "a.GGUF", "a.gguf.", "a.b.gguf", "a.ggufx", "", "я.gguf", " .gguf"] {
        let expected = std::path::Path::new(name).extension().map(|e| e == "gguf").unwrap_or(false);
        assert_eq!(is_gguf_name(name), expected, "name {:?}", name);
    }
}

#[test]
fn model_file_is_the_least_gguf_file() {
    let names = ["b.gguf", "a.txt", "B.gguf", "a.gguf", "a.gguf", "ab.gguf", "я.gguf", ".gguf", "a-1.gguf"];
    let files: Vec<String> = names.iter().map(|s| s.to_string()).collect();
    let mut candidates: Vec<PathBuf> = names
        .iter()
        .map(|n| PathBuf::from("/dir").join(n))
        .filter(|p| p.extension().map(|e| e == "gguf").unwrap_or(false))
        .collect();
    candidates.sort();
    let expected = candidates.into_iter().next().unwrap();
    assert_eq!(PathBuf::from("/dir").join(pick_gguf(&files).unwrap()), expected);
    assert_eq!(pick_gguf(&vec!["a.txt".to_string()]), None);
    assert_eq!(pick_gguf(&vec![]), None);
}

#[test]
fn model_files_in_parts_come_in_order_of_their_paths() {
    let item = |kind: &str, path: &str, size: Option<u64>| HfTreeItem {
        item_type: kind.to_string(),
        path: path.to_string(),
        size,
    };
    let items = vec![
        item("file", "q/m-00002.gguf", Some(2)),
        item("file", "q/README.md", Some(9)),
        item("directory", "q/dir.gguf", None),
        item("file", "q/m-00001.gguf", None),
        item("file", "q/m-00003.gguf", Some(3)),
    ];
    assert_eq!(
        pick_model_files(&items).unwrap(),
        vec![
            ("q/m-00001.gguf".to_string(), 0),
            ("q/m-00002.gguf".to_string(), 2),
            ("q/m-00003.gguf".to_string(), 3)
        ]
    );
    let none = vec![item("file", "q/README.md", Some(9))];
    assert_eq!(
        pick_model_files(&none).unwrap_err().message(),
        "download failed: No GGUF files in 702B quant"
    );
}

#[test]
fn pairs_are_sorted_as_the_standard_library_sorts_them() {
    let pairs: Vec<(String, u64)> = [("b", 1), ("a", 2), ("b", 0), ("", 5), ("ab", 3), ("a", 1), ("Z", 7)]
        .iter()
        .map(|(s, n)| (s.to_string(), *n))
        .collect();
    let mut expected = pairs.clone();
    expected.sort_by(|x, y| x.0.cmp(&y.0));
    assert_eq!(sort_pairs(pairs), expected);
}

#[test]
fn tool_lists_are_kept_for_five_minutes() {
    assert!(needs_refresh(None));
    assert!(!needs_refresh(Some(0)));
    assert!(!needs_refresh(Some(300_000_000_000)));
    assert!(needs_refresh(Some(300_000_000_001)));
}

#[test]
fn configurations_hold_each_server_once() {
    let server = |url: &str| McpServerConfig { url: url.to_string(), headers: vec![] };
    let mut config = McpConfig::default();
    config.insert("a".to_string(), server("1"));
    config.insert("b".to_string(), server("2"));
    config.insert("a".to_string(), server("3"));
    assert!(config.is_well_formed());
    let listed: Vec<(&str, &str)> =
        config.mcp_servers.iter().map(|(n, s)| (n.as_str(), s.url.as_str())).collect();
    assert_eq!(listed, vec![("b", "2"), ("a", "3")]);
    config.mcp_servers.push(("b".to_string(), server("4")));
    assert!(!config.is_well_formed());
}
