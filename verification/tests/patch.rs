use ide_agent::tools::executor::{IoFailure, ToolExecutor};
use ide_agent::tools::patch::{apply_exact_patch, rollback_content};
use ide_agent::tools::types::PatchError;

#[test]
fn sole_occurrence_is_replaced() {
    let r = apply_exact_patch("a.txt", "hello world", "world", "there");
    assert_eq!(r.unwrap(), "hello there");
}

#[test]
fn no_occurrence_is_rejected() {
    match apply_exact_patch("a.txt", "hello world", "mars", "x") {
        Err(PatchError::BeforeBlockNotFound { path, detail }) => {
            assert_eq!(path, "a.txt");
            assert_eq!(detail, "exact 'before' block not found in file");
        }
        _ => panic!("expected BeforeBlockNotFound"),
    }
}

#[test]
fn two_occurrences_are_ambiguous() {
    match apply_exact_patch("a.txt", "ab ab", "ab", "x") {
        Err(PatchError::AmbiguousPatch { path, count }) => {
            assert_eq!(path, "a.txt");
            assert_eq!(count, 2);
        }
        _ => panic!("expected AmbiguousPatch"),
    }
}

#[test]
fn occurrences_do_not_overlap() {
    // "aa" is found once in "aaa", as the standard library counts it.
    assert_eq!("aaa".matches("aa").count(), 1);
    assert_eq!(apply_exact_patch("p", "aaa", "aa", "b").unwrap(), "ba");
    match apply_exact_patch("p", "aaaa", "aa", "b") {
        Err(PatchError::AmbiguousPatch { count, .. }) => assert_eq!(count, 2),
        _ => panic!("expected AmbiguousPatch"),
    }
}

#[test]
fn empty_before_matches_every_boundary() {
    assert_eq!("abc".matches("").count(), 4);
    match apply_exact_patch("p", "abc", "", "x") {
        Err(PatchError::AmbiguousPatch { count, .. }) => assert_eq!(count, 4),
        _ => panic!("expected AmbiguousPatch"),
    }
    assert_eq!(apply_exact_patch("p", "", "", "x").unwrap(), "x");
}

#[test]
fn patch_works_on_characters_beyond_ascii() {
    let r = apply_exact_patch("p", "привет мир", "мир", "world");
    assert_eq!(r.unwrap(), "привет world");
}

#[test]
fn round_trip_restores_the_file() {
    let initial = "fn main() {\n    old();\n}\n";
    let patched = apply_exact_patch("p", initial, "old()", "new()").unwrap();
    assert_eq!(patched, "fn main() {\n    new();\n}\n");
    let restored = apply_exact_patch("p", &patched, "new()", "old()").unwrap();
    assert_eq!(restored, initial);
}

#[test]
fn round_trip_fails_where_after_overlaps_an_earlier_match() {
    // "aa" is counted once in "aaa", but its leftmost occurrence is not
    // where the patch put it.
    let patched = apply_exact_patch("p", "ab", "b", "aa").unwrap();
    assert_eq!(patched, "aaa");
    let back = apply_exact_patch("p", &patched, "aa", "b").unwrap();
    assert_eq!(back, "ba");
}

#[test]
fn rollback_replaces_after_by_before() {
    assert_eq!(
        rollback_content("hello there", "world", "there").unwrap(),
        "hello world"
    );
    assert_eq!(
        rollback_content("hello", "world", "there").unwrap_err(),
        "after block not found in file (cannot rollback)"
    );
    assert_eq!(
        rollback_content("x x x", "y", "x").unwrap_err(),
        "ambiguous rollback: after occurs 3 times"
    );
}

#[test]
fn patch_on_a_missing_file_reports_file_not_found() {
    let failure = IoFailure { not_found: true, message: "No such file".to_string() };
    let r = ToolExecutor::patch_read_failed("src/none.rs", &failure);
    assert!(!r.success);
    assert!(r.output.starts_with("FileNotFound: path="));
    assert_eq!(r.output, "FileNotFound: path=src/none.rs");
}

#[test]
fn patch_on_an_unreadable_file_reports_io_error() {
    let failure = IoFailure { not_found: false, message: "denied".to_string() };
    let r = ToolExecutor::patch_read_failed("a", &failure);
    assert!(!r.success);
    assert_eq!(r.output, "IOError: path=a detail=denied");
}

#[test]
fn decide_patch_answers_with_the_error_text() {
    assert_eq!(ToolExecutor::decide_patch("a", "x y", "y", "z").unwrap(), "x z");
    let r = ToolExecutor::decide_patch("a", "y y", "y", "z").unwrap_err();
    assert!(!r.success);
    assert_eq!(r.output, "AmbiguousPatch: path=a before_occurrences=2");
    let r = ToolExecutor::decide_patch("a", "x", "y", "z").unwrap_err();
    assert_eq!(
        r.output,
        "BeforeBlockNotFound: path=a detail=exact 'before' block not found in file"
    );
}

#[test]
fn rejection_shows_the_count() {
    let current = "x".repeat(1000);
    let r = ToolExecutor::decide_patch("a", &current, "x", "y").unwrap_err();
    assert_eq!(r.output, "AmbiguousPatch: path=a before_occurrences=1000");
    let r = ToolExecutor::decide_patch("a", &current, "", "y").unwrap_err();
    assert_eq!(r.output, "AmbiguousPatch: path=a before_occurrences=1001");
}

#[test]
fn patch_written_reports_the_outcome() {
    let r = ToolExecutor::patch_written("a", Ok(()));
    assert!(r.success);
    assert_eq!(r.output, "Patched a");
    let r = ToolExecutor::patch_written("a", Err("disk full".to_string()));
    assert!(!r.success);
    assert_eq!(r.output, "IOError: path=a detail=disk full");
}
