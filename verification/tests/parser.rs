use ide_agent::parser::{extract_json_object, parse_tool_call, tool_call_of_text, tool_call_of_value};

fn value(text: &str) -> serde_json::Value {
    serde_json::from_str(text).unwrap()
}

#[test]
fn fenced_call_is_parsed() {
    let response = "I will read it.\n```tool_call\n{\"name\": \"read_file\", \"arguments\": {\"path\": \"src/a.rs\"}}\n```\nDone after that.";
    let call = parse_tool_call(response).unwrap();
    assert_eq!(call.name, "read_file");
    assert_eq!(call.arguments, value("{\"path\": \"src/a.rs\"}"));
    assert_eq!(call.arg_str("path"), Some("src/a.rs".to_string()));
}

#[test]
fn first_block_wins() {
    let response = "```tool_call\n{\"name\":\"a\",\"arguments\":{}}\n```\n```tool_call\n{\"name\":\"b\",\"arguments\":{}}\n```";
    assert_eq!(parse_tool_call(response).unwrap().name, "a");
}

#[test]
fn call_without_closing_fence_is_parsed() {
    let response = "```tool_call\n{\"name\": \"list_files\", \"arguments\": {}}";
    let call = parse_tool_call(response).unwrap();
    assert_eq!(call.name, "list_files");
    assert_eq!(call.arguments, value("{}"));
}

#[test]
fn unfenced_call_ends_at_the_first_brace_that_closes_a_call() {
    let response = "```tool_call\nhere: {\"name\":\"x\",\"arguments\":{\"a\":{\"b\":1}}} and } more";
    let call = parse_tool_call(response).unwrap();
    assert_eq!(call.name, "x");
    assert_eq!(call.arguments, value("{\"a\":{\"b\":1}}"));
}

#[test]
fn response_without_marker_holds_no_call() {
    assert!(parse_tool_call("{\"name\":\"x\",\"arguments\":{}}").is_none());
    assert!(parse_tool_call("All done.").is_none());
    assert!(parse_tool_call("").is_none());
}

#[test]
fn invalid_blocks_hold_no_call() {
    assert!(parse_tool_call("```tool_call\nnot json\n```").is_none());
    assert!(parse_tool_call("```tool_call\n{\"name\":\"x\"}\n```").is_none());
    assert!(parse_tool_call("```tool_call\n{\"name\":3,\"arguments\":{}}\n```").is_none());
    assert!(parse_tool_call("```tool_call\n{\"name\":\"x\",\"arguments\":{}").is_none());
    assert!(parse_tool_call("```tool_call\n{\"name\":\"x\",\"arguments\":{}}").is_some());
    assert!(parse_tool_call("```tool_call\n{\"name\":\"x\",\"arguments\":{").is_none());
    assert!(parse_tool_call("```tool_call\nno braces at all").is_none());
}

#[test]
fn call_of_text_and_value_agree() {
    let text = "{\"name\":\"create_file\",\"arguments\":{\"path\":\"a\",\"content\":\"b\"}}";
    let from_text = tool_call_of_text(text).unwrap();
    let from_value = tool_call_of_value(&value(text)).unwrap();
    assert_eq!(from_text.name, from_value.name);
    assert_eq!(from_text.arguments, from_value.arguments);
    assert!(tool_call_of_text("[1,2]").is_none());
    assert!(tool_call_of_value(&value("\"name\"")).is_none());
}

#[test]
fn arguments_may_be_any_value() {
    let call = tool_call_of_text("{\"name\":\"x\",\"arguments\":null}").unwrap();
    assert_eq!(call.arguments, serde_json::Value::Null);
    assert_eq!(call.arg_str("path"), None);
}

#[test]
fn extract_scans_from_the_first_brace() {
    let chars: Vec<char> = "noise {\"name\":\"t\",\"arguments\":{}} tail".chars().collect();
    assert_eq!(extract_json_object(&chars).unwrap().name, "t");
    let none: Vec<char> = "} {".chars().collect();
    assert!(extract_json_object(&none).is_none());
}

#[test]
fn same_call_is_recognised() {
    let a = tool_call_of_text("{\"name\":\"x\",\"arguments\":{\"p\":1,\"q\":2}}").unwrap();
    let b = tool_call_of_text("{\"name\":\"x\",\"arguments\":{\"q\":2,\"p\":1}}").unwrap();
    let c = tool_call_of_text("{\"name\":\"x\",\"arguments\":{\"p\":2}}").unwrap();
    let d = tool_call_of_text("{\"name\":\"y\",\"arguments\":{\"p\":1,\"q\":2}}").unwrap();
    assert!(a.same(&b));
    assert!(a.same(&a.duplicate()));
    assert!(!a.same(&c));
    assert!(!a.same(&d));
}
