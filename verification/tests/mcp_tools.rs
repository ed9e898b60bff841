use ide_agent::mcp::{
    external_tool_outcome, extract_content, parse_mcp_tool_name, route_tool_call, server_name,
    tool_result_text, McpError, McpToolDescriptor,
};

fn pair(server: &str, tool: &str) -> Option<(String, String)> {
    Some((server.to_string(), tool.to_string()))
}

fn value(text: &str) -> serde_json::Value {
    serde_json::from_str(text).unwrap()
}

#[test]
fn test_parse_mcp_tool_name() {
    assert_eq!(
        parse_mcp_tool_name("mcp::context7::query-docs"),
        pair("context7", "query-docs")
    );
    assert_eq!(
        parse_mcp_tool_name("mcp::context7::resolve-library-id"),
        pair("context7", "resolve-library-id")
    );
    assert_eq!(parse_mcp_tool_name("create_file"), None);
    assert_eq!(parse_mcp_tool_name("mcp::context7"), None);
    assert_eq!(parse_mcp_tool_name("mcp::::tool"), None);
}

#[test]
fn tool_name_keeps_later_separators_in_the_tool() {
    assert_eq!(parse_mcp_tool_name("mcp::a::b::c"), pair("a", "b::c"));
    assert_eq!(parse_mcp_tool_name("mcp::a::"), None);
    assert_eq!(parse_mcp_tool_name("mcp::  a::b  "), pair("a", "b"));
}

#[test]
fn namespaced_name_round_trips() {
    let tool = McpToolDescriptor {
        server: "context7".to_string(),
        name: "query-docs".to_string(),
        description: None,
        input_schema: value("{}"),
    };
    assert_eq!(tool.namespaced_name(), "mcp::context7::query-docs");
    assert_eq!(
        parse_mcp_tool_name(&tool.namespaced_name()),
        pair("context7", "query-docs")
    );
}

#[test]
fn server_name_of_a_path_is_its_stem() {
    assert_eq!(server_name("context7"), "context7");
    assert_eq!(server_name("/home/me/servers/docs.json"), "docs");
    assert_eq!(server_name("plain.json"), "plain");
}

#[test]
fn route_finds_the_server() {
    let servers = vec!["a".to_string(), "context7".to_string()];
    match route_tool_call(&servers, "mcp::context7::query-docs") {
        Ok((index, tool)) => {
            assert_eq!(index, 1);
            assert_eq!(tool, "query-docs");
        }
        Err(e) => panic!("unexpected error: {}", e.message()),
    }
}

#[test]
fn route_rejects_bad_names_and_unknown_servers() {
    let servers = vec!["a".to_string()];
    match route_tool_call(&servers, "create_file") {
        Err(McpError::JsonRpc(text)) => assert_eq!(text, "invalid MCP tool name: create_file"),
        _ => panic!("expected an error"),
    }
    match route_tool_call(&servers, "mcp::b::t") {
        Err(McpError::JsonRpc(text)) => assert_eq!(
            text,
            "MCP server not found: b. Check that the server name in mcp.json mcpServers matches the name in the tool call."
        ),
        _ => panic!("expected an error"),
    }
    match route_tool_call(&servers, "mcp::x.json::t") {
        Err(McpError::JsonRpc(text)) => assert!(text.ends_with("Got key: x.json")),
        _ => panic!("expected an error"),
    }
}

#[test]
fn tool_result_text_prefers_strings() {
    assert_eq!(tool_result_text(&value("\"plain\"")), "plain");
    assert_eq!(tool_result_text(&value("{\"content\":\"inner\"}")), "inner");
    assert_eq!(tool_result_text(&value("{\"content\":[1,2]}")), "[1,2]");
    assert_eq!(tool_result_text(&value("{\"other\":1}")), "{\"other\":1}");
}

#[test]
fn external_outcome_reports_errors_as_text() {
    assert_eq!(
        external_tool_outcome(Some(Ok(value("\"ok\"")))),
        (true, "ok".to_string())
    );
    assert_eq!(
        external_tool_outcome(Some(Err(McpError::Timeout))),
        (false, "MCP error: timeout".to_string())
    );
    assert_eq!(
        external_tool_outcome(None),
        (false, "MCP not configured".to_string())
    );
}

#[test]
fn extract_content_ignores_other_shapes() {
    assert_eq!(extract_content(&value("\"text\"")), "text");
    assert_eq!(extract_content(&value("{\"content\":\"c\"}")), "c");
    assert_eq!(extract_content(&value("{\"content\":3}")), "");
    assert_eq!(extract_content(&value("[1]")), "");
}
