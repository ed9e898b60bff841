use ide_agent::context::{Context, ContextBuilder, ContextError, ContextLimits, FileContext};
use ide_agent::mcp::{McpContextChunk, McpToolDescriptor};
use ide_agent::prompt::{
    build_agent_system_prompt, format_mcp_context_block, PromptBuilder, AGENT_SYSTEM_PROMPT,
    AGENT_SYSTEM_PROMPT_BASE, CONTEXT_HEADING, LOCAL_TOOLS, OUTPUT_FORMAT,
};
use ide_agent::providers::AiMode;
use std::path::PathBuf;

fn tool(server: &str, name: &str, description: Option<&str>) -> McpToolDescriptor {
    McpToolDescriptor {
        server: server.to_string(),
        name: name.to_string(),
        description: description.map(String::from),
        input_schema: serde_json::Value::Null,
    }
}

fn chunk(server: &str, content: &str) -> McpContextChunk {
    McpContextChunk { server: server.to_string(), content: content.to_string() }
}

fn empty_context() -> Context {
    Context { current_file: None, selection: None, project_tree: vec![], extra_files: vec![] }
}

#[test]
fn system_prompt_without_external_tools() {
    let prompt = build_agent_system_prompt(&vec![]);
    assert_eq!(prompt, format!("{}{}{}", AGENT_SYSTEM_PROMPT_BASE, LOCAL_TOOLS, OUTPUT_FORMAT));
    assert!(prompt.starts_with("You are an IDE agent."));
    assert!(prompt.contains("- apply_patch(path: string, before: string, after: string)"));
    assert!(prompt.ends_with("Otherwise, proceed immediately."));
}

#[test]
fn system_prompt_lists_external_tools() {
    let tools = vec![
        tool("context7", "query-docs", Some("Query\nthe docs")),
        tool("s", "t", None),
    ];
    let prompt = build_agent_system_prompt(&tools);
    assert!(prompt.contains(
        "Use for all edits to existing files.\n- mcp::context7::query-docs — Query the docs\n- mcp::s::t — MCP tool\n\nOutput format"
    ));
}

#[test]
fn long_descriptions_are_cut() {
    let long = "d".repeat(121);
    let at_limit = "e".repeat(120);
    let prompt = build_agent_system_prompt(&vec![
        tool("s", "long", Some(&long)),
        tool("s", "limit", Some(&at_limit)),
    ]);
    assert!(prompt.contains(&format!("- mcp::s::long — {}...\n", "d".repeat(117))));
    assert!(prompt.contains(&format!("- mcp::s::limit — {}\n", at_limit)));
}

#[test]
fn cut_falls_between_characters() {
    // 61 two-byte characters take 122 bytes; byte 117 is inside a character.
    let long = "я".repeat(61);
    let prompt = build_agent_system_prompt(&vec![tool("s", "t", Some(&long))]);
    assert!(prompt.contains(&format!("- mcp::s::t — {}...\n", "я".repeat(58))));
}

#[test]
fn context_block_is_empty_without_chunks() {
    assert_eq!(format_mcp_context_block(&vec![]), "");
}

#[test]
fn context_block_lists_chunks() {
    let block = format_mcp_context_block(&vec![chunk("docs", "first"), chunk("wiki", "second")]);
    assert_eq!(
        block,
        "\n\nAdditional context from external knowledge systems:\n- [docs]: first\n- [wiki]: second\n"
    );
    assert!(block.starts_with(CONTEXT_HEADING));
}

#[test]
fn context_block_stops_at_its_limit() {
    let big = "a".repeat(7000);
    let block = format_mcp_context_block(&vec![chunk("s", "small"), chunk("s", &big), chunk("s", "never")]);
    let head = format!("{}- [s]: small\n", CONTEXT_HEADING);
    let rest = 6000 - head.len();
    let line = format!("- [s]: {}\n", big);
    let shown: String = line.chars().take(rest).collect();
    assert_eq!(block, format!("{}{}...\n", head, shown));
    assert!(!block.contains("never"));
}

#[test]
fn context_block_drops_a_line_where_little_room_is_left() {
    let head_len = CONTEXT_HEADING.len();
    // The first line brings the block to twenty bytes below the limit.
    let filler = "b".repeat(6000 - 20 - head_len - "- [s]: \n".len());
    let block = format_mcp_context_block(&vec![chunk("s", &filler), chunk("s", &"c".repeat(100))]);
    assert_eq!(block.len(), 6000 - 20);
    assert!(block.ends_with("b\n"));
    let filler = "b".repeat(6000 - 21 - head_len - "- [s]: \n".len());
    let block = format_mcp_context_block(&vec![chunk("s", &filler), chunk("s", &"c".repeat(100))]);
    assert!(block.ends_with("...\n"));
    assert_eq!(block.len(), 6000 - 21 + 21 + 4);
}

#[test]
fn prompt_without_context() {
    let prompt = PromptBuilder::build(AiMode::Chat, &empty_context(), "hello").unwrap();
    assert_eq!(
        prompt,
        "You are a helpful coding assistant.\n\nContext:\n(no context)\n\nUser: hello"
    );
}

#[test]
fn prompt_with_every_part() {
    let context = Context {
        current_file: Some(FileContext { path: PathBuf::from("src/a.rs"), content: "fn a() {}".to_string() }),
        selection: Some("a()".to_string()),
        project_tree: vec![PathBuf::from("src/a.rs"), PathBuf::from("Cargo.toml")],
        extra_files: vec![FileContext { path: PathBuf::from("b.rs"), content: "B".to_string() }],
    };
    let formatted = PromptBuilder::format_context(&context).unwrap();
    assert_eq!(
        formatted,
        "File: src/a.rs\n```\nfn a() {}\n```\n\nSelection:\n```\na()\n```\n\nProject tree:\nsrc/a.rs\nCargo.toml\n\nFile: b.rs\n```\nB\n```"
    );
    let prompt = PromptBuilder::build(AiMode::Explain, &context, "why").unwrap();
    assert_eq!(
        prompt,
        format!("Explain the code clearly. Focus on logic and structure.\n\nContext:\n{}\n\nUser: why", formatted)
    );
}

#[test]
fn system_prompts_by_mode() {
    assert_eq!(PromptBuilder::system_prompt(AiMode::Refactor).unwrap(), "Refactor the selected code according to the instruction.");
    assert_eq!(PromptBuilder::system_prompt(AiMode::Generate).unwrap(), "Generate code according to the prompt.");
    assert_eq!(PromptBuilder::system_prompt(AiMode::Agent).unwrap(), AGENT_SYSTEM_PROMPT);
    assert_eq!(PromptBuilder::assemble("S", "U", "C").unwrap(), "S\n\nContext:\nC\n\nUser: U");
}

#[test]
fn context_builder_keeps_within_limits() {
    let limits = ContextLimits { max_chars: 10, max_files: 2 };
    let context = ContextBuilder::new(limits.clone())
        .current_file(PathBuf::from("a"), "12345".to_string())
        .selection("123".to_string())
        .project_tree(vec![PathBuf::from("1"), PathBuf::from("2"), PathBuf::from("3")])
        .add_file(PathBuf::from("x"), "1".to_string())
        .add_file(PathBuf::from("y"), "2".to_string())
        .add_file(PathBuf::from("z"), "3".to_string())
        .build()
        .unwrap();
    assert_eq!(context.project_tree, vec![PathBuf::from("1"), PathBuf::from("2")]);
    assert_eq!(context.extra_files.len(), 2);
    assert_eq!(context.extra_files[1].content, "2");
    assert_eq!(context.selection, Some("123".to_string()));
}

#[test]
fn context_builder_refuses_too_much_text() {
    let limits = ContextLimits { max_chars: 10, max_files: 2 };
    let r = ContextBuilder::new(limits)
        .current_file(PathBuf::from("a"), "12345".to_string())
        .selection("123".to_string())
        .add_file(PathBuf::from("x"), "ябв".to_string())
        .build();
    match r {
        Err(ContextError::LimitExceeded(detail)) => assert_eq!(detail, "14 > 10"),
        _ => panic!("expected the limit to be exceeded"),
    }
    let e = ContextError::LimitExceeded("14 > 10".to_string());
    assert_eq!(e.message(), "Context limit exceeded: 14 > 10");
    let d = ContextLimits::default();
    assert_eq!((d.max_chars, d.max_files), (100_000, 50));
}
