use ide_agent::parser::tool_call_of_text;
use ide_agent::tools::executor::{
    path_stays_in_root, CreateFailure, DirEntry, ListOutcome, ToolExecutor, ToolRequest,
};
use ide_agent::tools::types::{PatchError, ToolCall, ToolResult};
use ide_agent::workspace::WorkspaceError;
use std::path::PathBuf;

fn call(name: &str, arguments: &str) -> ToolCall {
    tool_call_of_text(&format!("{{\"name\": \"{}\", \"arguments\": {}}}", name, arguments)).unwrap()
}

fn executor() -> ToolExecutor {
    ToolExecutor::new(PathBuf::from("/proj"))
}

fn rejection(request: ToolRequest) -> String {
    match request {
        ToolRequest::Reject(result) => {
            assert!(!result.success);
            result.output
        }
        other => panic!("expected a refusal, got {:?}", other),
    }
}

fn entry(name: &str, is_dir: bool) -> DirEntry {
    DirEntry { name: name.to_string(), is_dir }
}

#[test]
fn paths_are_resolved_below_the_root() {
    let e = executor();
    assert_eq!(e.project_root, PathBuf::from("/proj"));
    assert_eq!(e.resolve_path("src/a.rs"), PathBuf::from("/proj/src/a.rs"));
    assert_eq!(e.resolve_path("/src/a.rs"), PathBuf::from("/proj/src/a.rs"));
    assert_eq!(e.resolve_path("///etc/passwd"), PathBuf::from("/proj/etc/passwd"));
    assert_eq!(e.resolve_path(""), PathBuf::from("/proj/"));
}

#[test]
fn read_file_asks_for_the_file() {
    match executor().prepare(&call("read_file", "{\"path\": \"/src/a.rs\"}")) {
        ToolRequest::ReadFile { full } => assert_eq!(full, PathBuf::from("/proj/src/a.rs")),
        other => panic!("unexpected request {:?}", other),
    }
    assert_eq!(rejection(executor().prepare(&call("read_file", "{}"))), "read_file: missing 'path'");
    assert_eq!(
        rejection(executor().prepare(&call("read_file", "{\"path\": 3}"))),
        "read_file: missing 'path'"
    );
}

#[test]
fn list_files_defaults_to_the_root() {
    match executor().prepare(&call("list_files", "{}")) {
        ToolRequest::ListFiles { full } => assert_eq!(full, PathBuf::from("/proj/.")),
        other => panic!("unexpected request {:?}", other),
    }
    match executor().prepare(&call("list_files", "{\"path\": \"src\"}")) {
        ToolRequest::ListFiles { full } => assert_eq!(full, PathBuf::from("/proj/src")),
        other => panic!("unexpected request {:?}", other),
    }
}

#[test]
fn create_file_needs_path_and_content() {
    match executor().prepare(&call("create_file", "{\"path\": \"a/b.txt\", \"content\": \"hi\"}")) {
        ToolRequest::CreateFile { path, full, content } => {
            assert_eq!(path, "a/b.txt");
            assert_eq!(full, PathBuf::from("/proj/a/b.txt"));
            assert_eq!(content, "hi");
        }
        other => panic!("unexpected request {:?}", other),
    }
    assert_eq!(
        rejection(executor().prepare(&call("create_file", "{\"content\": \"hi\"}"))),
        "create_file: missing 'path'"
    );
    assert_eq!(
        rejection(executor().prepare(&call("create_file", "{\"path\": \"a\"}"))),
        "create_file: missing 'content'"
    );
}

#[test]
fn update_file_needs_path_and_content() {
    match executor().prepare(&call("update_file", "{\"path\": \"a\", \"content\": \"\"}")) {
        ToolRequest::UpdateFile { path, full, content } => {
            assert_eq!(path, "a");
            assert_eq!(full, PathBuf::from("/proj/a"));
            assert_eq!(content, "");
        }
        other => panic!("unexpected request {:?}", other),
    }
    assert_eq!(
        rejection(executor().prepare(&call("update_file", "{\"path\": \"a\"}"))),
        "update_file: missing 'content'"
    );
}

#[test]
fn apply_patch_needs_three_arguments() {
    match executor().prepare(&call("apply_patch", "{\"path\": \"a\", \"before\": \"x\", \"after\": \"y\"}")) {
        ToolRequest::ApplyPatch { path, full, before, after } => {
            assert_eq!(path, "a");
            assert_eq!(full, PathBuf::from("/proj/a"));
            assert_eq!(before, "x");
            assert_eq!(after, "y");
        }
        other => panic!("unexpected request {:?}", other),
    }
    assert_eq!(
        rejection(executor().prepare(&call("apply_patch", "{\"before\": \"x\", \"after\": \"y\"}"))),
        "apply_patch: missing 'path'"
    );
    assert_eq!(
        rejection(executor().prepare(&call("apply_patch", "{\"path\": \"a\", \"after\": \"y\"}"))),
        "apply_patch: missing 'before'"
    );
    assert_eq!(
        rejection(executor().prepare(&call("apply_patch", "{\"path\": \"a\", \"before\": \"x\"}"))),
        "apply_patch: missing 'after'"
    );
}

#[test]
fn create_project_needs_a_template() {
    match executor().prepare(&call("create_project", "{\"template\": \"rust\", \"name\": \"demo\"}")) {
        ToolRequest::CreateProject { template, name } => {
            assert_eq!(template, "rust");
            assert_eq!(name, Some("demo".to_string()));
        }
        other => panic!("unexpected request {:?}", other),
    }
    match executor().prepare(&call("create_project", "{\"template\": \"empty\"}")) {
        ToolRequest::CreateProject { template, name } => {
            assert_eq!(template, "empty");
            assert_eq!(name, None);
        }
        other => panic!("unexpected request {:?}", other),
    }
    assert_eq!(
        rejection(executor().prepare(&call("create_project", "{\"name\": \"demo\"}"))),
        "create_project: missing 'template'"
    );
}

#[test]
fn unknown_tool_is_refused() {
    assert_eq!(rejection(executor().prepare(&call("delete_all", "{}"))), "Unknown tool: delete_all");
}

#[test]
fn listing_is_sorted_and_tagged() {
    let entries = vec![entry("src", true), entry("b.txt", false), entry("a", true), entry("Cargo.toml", false)];
    assert_eq!(
        ToolExecutor::format_listing(&entries),
        "Cargo.toml (file)\na (dir)\nb.txt (file)\nsrc (dir)"
    );
    assert_eq!(ToolExecutor::format_listing(&vec![]), "");
    assert_eq!(ToolExecutor::format_listing(&vec![entry("only", false)]), "only (file)");
}

#[test]
fn listing_agrees_with_the_standard_sort() {
    let names = ["zeta", "a b", "a", "ab", "Z", "é", "e", "я", "a-b", "a.b", "10", "9", "", "a"];
    let entries: Vec<DirEntry> = names.iter().enumerate().map(|(i, n)| entry(n, i % 2 == 0)).collect();
    let mut expected: Vec<String> = entries
        .iter()
        .map(|e| format!("{} ({})", e.name, if e.is_dir { "dir" } else { "file" }))
        .collect();
    expected.sort();
    let listing = ToolExecutor::format_listing(&entries);
    assert_eq!(listing, expected.join("\n"));
    assert_eq!(listing.lines().count(), entries.len());
}

#[test]
fn list_finished_reports_failures() {
    let r = ToolExecutor::list_finished(&ListOutcome::NotADirectory);
    assert_eq!((r.success, r.output.as_str()), (false, "list_files: not a directory"));
    let r = ToolExecutor::list_finished(&ListOutcome::Failed("denied".to_string()));
    assert_eq!((r.success, r.output.as_str()), (false, "list_files: denied"));
    let r = ToolExecutor::list_finished(&ListOutcome::Entries(vec![entry("b", false), entry("a", true)]));
    assert_eq!((r.success, r.output.as_str()), (true, "a (dir)\nb (file)"));
}

#[test]
fn file_answers() {
    let r = ToolExecutor::created_file("a/b.txt", Ok(()));
    assert_eq!((r.success, r.output.as_str()), (true, "Created a/b.txt"));
    let r = ToolExecutor::created_file("a", Err(CreateFailure::Mkdir("denied".to_string())));
    assert_eq!((r.success, r.output.as_str()), (false, "create_file: mkdir failed: denied"));
    let r = ToolExecutor::created_file("a", Err(CreateFailure::Write("full".to_string())));
    assert_eq!((r.success, r.output.as_str()), (false, "create_file: full"));
    let r = ToolExecutor::updated_file("a", Ok(()));
    assert_eq!((r.success, r.output.as_str()), (true, "Updated a"));
    let r = ToolExecutor::updated_file("a", Err("full".to_string()));
    assert_eq!((r.success, r.output.as_str()), (false, "update_file: full"));
    let r = ToolExecutor::read_finished(Ok("text".to_string()));
    assert_eq!((r.success, r.output.as_str()), (true, "text"));
    let r = ToolExecutor::read_finished(Err("No such file".to_string()));
    assert_eq!((r.success, r.output.as_str()), (false, "read_file: No such file"));
}

#[test]
fn project_answers() {
    let e = executor();
    let r = e.project_created(&Ok(PathBuf::from("/proj/demo")));
    assert_eq!((r.success, r.output.as_str()), (true, "Created project at demo"));
    let r = e.project_created(&Ok(PathBuf::from("/elsewhere/demo")));
    assert_eq!((r.success, r.output.as_str()), (true, "Created project at /elsewhere/demo"));
    let r = e.project_created(&Err(WorkspaceError::PathExists(PathBuf::from("/proj/demo"))));
    assert!(r.success);
    assert_eq!(
        r.output,
        "Project already exists at demo. Use list_files(\"demo\") and read_file(\"{path}\") to work with it."
    );
    let r = e.project_created(&Err(WorkspaceError::InvalidTemplate("go".to_string())));
    assert_eq!(
        (r.success, r.output.as_str()),
        (false, "create_project: Invalid template: go. Use: empty, rust, python, node")
    );
    let r = e.project_created(&Err(WorkspaceError::Io("denied".to_string())));
    assert_eq!((r.success, r.output.as_str()), (false, "create_project: IO error: denied"));
}

#[test]
fn results_and_patch_errors_render() {
    let ok = ToolResult::ok("fine".to_string());
    assert!(ok.success);
    assert_eq!(ok.output, "fine");
    let err = ToolResult::err("bad".to_string());
    assert!(!err.success);
    assert_eq!(err.duplicate().output, "bad");
    assert_eq!(
        PatchError::BeforeBlockNotFound { path: "a".to_string(), detail: "d".to_string() }.message_for_agent(),
        "BeforeBlockNotFound: path=a detail=d"
    );
    assert_eq!(
        PatchError::AmbiguousPatch { path: "a".to_string(), count: 4_000_000_000 }.message_for_agent(),
        "AmbiguousPatch: path=a before_occurrences=4000000000"
    );
    assert_eq!(
        PatchError::AmbiguousPatch { path: "a".to_string(), count: 0 }.message_for_agent(),
        "AmbiguousPatch: path=a before_occurrences=0"
    );
    assert_eq!(PatchError::FileNotFound { path: "a".to_string() }.message_for_agent(), "FileNotFound: path=a");
    assert_eq!(
        PatchError::IoError { path: "a".to_string(), detail: "d".to_string() }.message_for_agent(),
        "IOError: path=a detail=d"
    );
}

#[test]
fn paths_that_leave_the_project_are_refused() {
    let e = executor();
    assert_eq!(
        rejection(e.prepare(&call("read_file", "{\"path\": \"../secret.txt\"}"))),
        "read_file: path outside project"
    );
    assert_eq!(
        rejection(e.prepare(&call("read_file", "{\"path\": \"a/../../secret.txt\"}"))),
        "read_file: path outside project"
    );
    assert_eq!(
        rejection(e.prepare(&call("list_files", "{\"path\": \"..\"}"))),
        "list_files: path outside project"
    );
    assert_eq!(
        rejection(e.prepare(&call("create_file", "{\"path\": \"/../x\", \"content\": \"c\"}"))),
        "create_file: path outside project"
    );
    assert_eq!(
        rejection(e.prepare(&call("update_file", "{\"path\": \"src/../../x\", \"content\": \"c\"}"))),
        "update_file: path outside project"
    );
    assert_eq!(
        rejection(e.prepare(&call(
            "apply_patch",
            "{\"path\": \"./../x\", \"before\": \"a\", \"after\": \"b\"}"
        ))),
        "apply_patch: path outside project"
    );
    assert_eq!(e.locate("../x"), None);
    assert_eq!(e.locate("a/../b"), Some(PathBuf::from("/proj/a/../b")));
}

#[test]
fn paths_that_stay_in_the_project_are_accepted() {
    for path in ["", ".", "a", "a/b", "a/../b", "a/b/../../c", "./a", "a//b", "/a", "..a/b", "a/..b", "...", "a/./../b"] {
        assert!(path_stays_in_root(path), "path {:?}", path);
    }
    for path in ["..", "../", "../a", "a/../..", "a/../../b", "/..", "./..", "a/b/../../../c/d", "a/../b/../.."] {
        assert!(!path_stays_in_root(path), "path {:?}", path);
    }
}
