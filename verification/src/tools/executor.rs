//! The tool executor: what a tool call asks of the file system, and what
//! the tool answers once the file system has spoken.
//!
//! Every path is resolved below the project root. A path that leaves the
//! root, read component by component, is refused before anything is read
//! or written.

use crate::order::{
    law_sorted_is_ordered, law_sorted_is_permutation, ordered, sort_strings, sorted_texts,
};
use crate::paths::{
    path_below, path_join, path_joined, path_starts_with, path_strip_prefix, path_text,
    path_to_text, path_within,
};
use crate::text::{
    chars_of, decimal, join_strings, joined, occurrences, opt_view, replace_first, same_text,
    string_of, strip_leading, texts, without_leading,
};
use crate::tools::patch::{apply_exact_patch, not_found_detail, shown_count};
use crate::tools::types::{PatchError, ToolCall, ToolResult};
use crate::workspace::WorkspaceError;
use std::path::PathBuf;
use vstd::prelude::*;
use vstd::string::StringExecFns;

verus! {

/// Why the file system refused.
#[derive(Debug, Clone)]
pub struct IoFailure {
    /// There is no such file.
    pub not_found: bool,
    /// The failure as text.
    pub message: String,
}

/// Why a file could not be created.
#[derive(Debug, Clone)]
pub enum CreateFailure {
    /// The directories above the file could not be made.
    Mkdir(String),
    /// The file could not be written.
    Write(String),
}

/// One child of a directory.
#[derive(Debug, Clone)]
pub struct DirEntry {
    pub name: String,
    pub is_dir: bool,
}

/// What listing a directory gave.
#[derive(Debug, Clone)]
pub enum ListOutcome {
    NotADirectory,
    Failed(String),
    Entries(Vec<DirEntry>),
}

/// What a tool call asks of the file system.
#[derive(Debug, Clone)]
#[allow(inconsistent_fields)]
pub enum ToolRequest {
    /// Nothing: the call is answered as it stands.
    Reject(ToolResult),
    /// Make the directories above `full`, then write `content` to it.
    CreateFile { path: String, full: PathBuf, content: String },
    /// Read `full` as text.
    ReadFile { full: PathBuf },
    /// List the children of `full`.
    ListFiles { full: PathBuf },
    /// Read `full`, decide the patch on what was read, write where it applies.
    ApplyPatch { path: String, full: PathBuf, before: String, after: String },
    /// Write `content` to `full`.
    UpdateFile { path: String, full: PathBuf, content: String },
    /// Make a project from a template below the project root.
    CreateProject { template: String, name: Option<String> },
}

/// The text of the refusal for a missing argument.
pub open spec fn missing(tool: Seq<char>, key: Seq<char>) -> Seq<char> {
    tool + ": missing '"@ + key + "'"@
}

/// The text of the refusal for a path that leaves the project.
pub open spec fn outside(tool: Seq<char>) -> Seq<char> {
    tool + ": path outside project"@
}

/// The request is a refusal with this text.
pub open spec fn refused(r: ToolRequest, text: Seq<char>) -> bool {
    r matches ToolRequest::Reject(t) && !t.success && t.output@ == text
}

/// The result is a failure with this text.
pub open spec fn failed(r: ToolResult, text: Seq<char>) -> bool {
    !r.success && r.output@ == text
}

/// The result is a success with this text.
pub open spec fn succeeded(r: ToolResult, text: Seq<char>) -> bool {
    r.success && r.output@ == text
}

/// The path of a tool call, resolved below the root: leading slashes are
/// dropped, and the rest is joined to the root.
pub open spec fn resolved(root: PathBuf, path: Seq<char>) -> PathBuf {
    path_joined(root, without_leading(path, '/'))
}

/// The depth below the root after one more component of a path: `.` and
/// the empty component stay, `..` goes up, any other name goes down.
pub open spec fn step_depth(depth: int, component: Seq<char>) -> int {
    if component.len() == 0 || component == seq!['.'] {
        depth
    } else if component == seq!['.', '.'] {
        depth - 1
    } else {
        depth + 1
    }
}

/// Whether the rest of a path stays at or below the root, read from index
/// `i` on, where the current component starts at `start` and lies
/// `depth` levels below the root. Components are separated by `/`.
pub open spec fn stays_within(path: Seq<char>, start: int, i: int, depth: int) -> bool
    decreases path.len() - i,
{
    if start < 0 || i < start || depth < 0 {
        false
    } else if i >= path.len() {
        start <= path.len() && step_depth(depth, path.subrange(start, path.len() as int)) >= 0
    } else if path[i] == '/' {
        step_depth(depth, path.subrange(start, i)) >= 0 && stays_within(
            path,
            i + 1,
            i + 1,
            step_depth(depth, path.subrange(start, i)),
        )
    } else {
        stays_within(path, start, i + 1, depth)
    }
}

/// A path of a tool call stays in the project: read component by
/// component, it never goes above the root. So `a/../b` stays, and
/// `../b` and `a/../../b` do not.
pub open spec fn stays_in_root(path: Seq<char>) -> bool {
    stays_within(path, 0, 0, 0)
}

/// A path of a tool call is contained in the project: it stays in the
/// root component by component, and resolved below the root it has the
/// root's components as its first.
pub open spec fn contained(root: PathBuf, path: Seq<char>) -> bool {
    stays_in_root(path) && path_within(resolved(root, path), root)
}

/// A path whose first component is `..` leaves the project.
pub proof fn law_parent_first_leaves(path: Seq<char>)
    requires
        path.len() >= 2,
        path[0] == '.',
        path[1] == '.',
        path.len() == 2 || path[2] == '/',
    ensures
        !stays_in_root(path),
{
    reveal_with_fuel(stays_within, 4);
    assert(path.subrange(0, 2) =~= seq!['.', '.']);
}

/// Tests whether a path of a tool call stays in the project.
pub fn path_stays_in_root(path: &str) -> (r: bool)
    ensures
        r == stays_in_root(path@),
{
    let chars = chars_of(path);
    let mut depth: usize = 0;
    let mut start: usize = 0;
    let mut i: usize = 0;
    while i < chars.len()
        invariant
            start <= i <= chars.len(),
            depth <= start,
            chars@ == path@,
            stays_in_root(path@) == stays_within(path@, start as int, i as int, depth as int),
        decreases chars.len() - i,
    {
        if chars[i] == '/' {
            let kind = component_kind(&chars, start, i);
            if kind == 2 {
                if depth == 0 {
                    return false;
                }
                depth = depth - 1;
            } else if kind == 0 {
                depth = depth + 1;
            }
            start = i + 1;
        }
        i += 1;
    }
    let kind = component_kind(&chars, start, chars.len());
    !(kind == 2 && depth == 0)
}

/// What a component of a path is: 1 for `.` and for the empty component,
/// 2 for `..`, 0 for any other name.
fn component_kind(chars: &Vec<char>, start: usize, end: usize) -> (kind: u8)
    requires
        start <= end <= chars.len(),
    ensures
        kind <= 2,
        ({
            let component = chars@.subrange(start as int, end as int);
            &&& kind == 1 <==> (component.len() == 0 || component == seq!['.'])
            &&& kind == 2 <==> component == seq!['.', '.']
        }),
{
    let ghost component = chars@.subrange(start as int, end as int);
    let ghost dot = seq!['.'];
    let ghost dots = seq!['.', '.'];
    proof {
        assert(dot.len() == 1 && dot[0] == '.');
        assert(dots.len() == 2 && dots[0] == '.' && dots[1] == '.');
        assert(component.len() == end - start);
        if component.len() > 0 {
            assert(component[0] == chars@[start as int]);
        }
        if component.len() > 1 {
            assert(component[1] == chars@[start + 1]);
        }
    }
    let len = end - start;
    if len == 0 {
        1
    } else if len == 1 && chars[start] == '.' {
        proof {
            assert(component =~= dot);
        }
        1
    } else if len == 2 && chars[start] == '.' && chars[start + 1] == '.' {
        proof {
            assert(component =~= dots);
        }
        2
    } else {
        0
    }
}

/// The line of a listing for one child.
pub open spec fn entry_line(entry: DirEntry) -> Seq<char> {
    entry.name@ + (if entry.is_dir {
        " (dir)"@
    } else {
        " (file)"@
    })
}

/// The lines of a listing, one for each child, in the order given.
pub open spec fn entry_lines(entries: Seq<DirEntry>) -> Seq<Seq<char>> {
    entries.map_values(|e: DirEntry| entry_line(e))
}

/// The text of a listing: one line for each child, tagged `(dir)` or
/// `(file)`, the lines sorted and separated by line feeds.
pub open spec fn listing_text(entries: Seq<DirEntry>) -> Seq<char> {
    joined(sorted_texts(entry_lines(entries)), "\n"@)
}

/// A listing holds each child exactly once, tagged, and its lines are in
/// order: the lines are those of the children, each as often as it was
/// given, and each line comes before the next or equals it.
pub proof fn law_listing_sorted_and_complete(entries: Seq<DirEntry>)
    ensures
        listing_text(entries) == joined(sorted_texts(entry_lines(entries)), "\n"@),
        ordered(sorted_texts(entry_lines(entries))),
        sorted_texts(entry_lines(entries)).to_multiset() == entry_lines(entries).to_multiset(),
        sorted_texts(entry_lines(entries)).len() == entries.len(),
        forall|i: int|
            0 <= i < entries.len() ==> #[trigger] entry_lines(entries)[i] == entry_line(
                entries[i],
            ),
{
    law_sorted_is_ordered(entry_lines(entries));
    law_sorted_is_permutation(entry_lines(entries));
}

/// What `prepare` owes for a call.
pub open spec fn request_ok(root: PathBuf, call: ToolCall, r: ToolRequest) -> bool {
    let name = call.name@;
    if name == "create_file"@ {
        match (call.arg_text("path"@), call.arg_text("content"@)) {
            (None, _) => refused(r, missing(name, "path"@)),
            (Some(_), None) => refused(r, missing(name, "content"@)),
            (Some(p), Some(c)) => if !contained(root, p) {
                refused(r, outside(name))
            } else {
                r matches ToolRequest::CreateFile { path, full, content } && path@ == p && full
                    == resolved(root, p) && content@ == c
            },
        }
    } else if name == "read_file"@ {
        match call.arg_text("path"@) {
            None => refused(r, missing(name, "path"@)),
            Some(p) => if !contained(root, p) {
                refused(r, outside(name))
            } else {
                r matches ToolRequest::ReadFile { full } && full == resolved(root, p)
            },
        }
    } else if name == "list_files"@ {
        let p = match call.arg_text("path"@) {
            Some(p) => p,
            None => "."@,
        };
        if !contained(root, p) {
            refused(r, outside(name))
        } else {
            r matches ToolRequest::ListFiles { full } && full == resolved(root, p)
        }
    } else if name == "apply_patch"@ {
        match (call.arg_text("path"@), call.arg_text("before"@), call.arg_text("after"@)) {
            (None, _, _) => refused(r, missing(name, "path"@)),
            (Some(_), None, _) => refused(r, missing(name, "before"@)),
            (Some(_), Some(_), None) => refused(r, missing(name, "after"@)),
            (Some(p), Some(b), Some(a)) => if !contained(root, p) {
                refused(r, outside(name))
            } else {
                r matches ToolRequest::ApplyPatch { path, full, before, after } && path@ == p
                    && full == resolved(root, p) && before@ == b && after@ == a
            },
        }
    } else if name == "update_file"@ {
        match (call.arg_text("path"@), call.arg_text("content"@)) {
            (None, _) => refused(r, missing(name, "path"@)),
            (Some(_), None) => refused(r, missing(name, "content"@)),
            (Some(p), Some(c)) => if !contained(root, p) {
                refused(r, outside(name))
            } else {
                r matches ToolRequest::UpdateFile { path, full, content } && path@ == p && full
                    == resolved(root, p) && content@ == c
            },
        }
    } else if name == "create_project"@ {
        match call.arg_text("template"@) {
            None => refused(r, missing(name, "template"@)),
            Some(t) => r matches ToolRequest::CreateProject { template, name: wanted }
                && template@ == t && opt_view(wanted) == call.arg_text("name"@),
        }
    } else {
        refused(r, "Unknown tool: "@ + name)
    }
}

/// Runs tool calls against one project. All paths are relative to the
/// project root.
#[derive(Debug, Clone)]
pub struct ToolExecutor {
    pub project_root: PathBuf,
}

impl ToolExecutor {
    pub fn new(project_root: PathBuf) -> (r: ToolExecutor)
        ensures
            r.project_root == project_root,
    {
        ToolExecutor { project_root }
    }

    /// Resolves a path of a tool call below the project root.
    pub fn resolve_path(&self, path: &str) -> (r: PathBuf)
        ensures
            r == resolved(self.project_root, path@),
    {
        let rel = string_of(&strip_leading(&chars_of(path), '/'));
        path_join(&self.project_root, rel.as_str())
    }

    /// The refusal for a missing argument.
    fn refuse_missing(tool: &str, key: &str) -> (r: ToolRequest)
        ensures
            refused(r, missing(tool@, key@)),
    {
        let mut text = String::from_str(tool);
        text.append(": missing '");
        text.append(key);
        text.append("'");
        ToolRequest::Reject(ToolResult::err(text))
    }

    /// The path of the call below the root, or the refusal for a path that
    /// leaves the project.
    fn within_root(&self, tool: &str, path: &str) -> (r: Result<PathBuf, ToolRequest>)
        ensures
            match r {
                Ok(full) => full == resolved(self.project_root, path@) && contained(
                    self.project_root,
                    path@,
                ),
                Err(refusal) => !contained(self.project_root, path@) && refused(
                    refusal,
                    outside(tool@),
                ),
            },
    {
        match self.locate(path) {
            Some(full) => Ok(full),
            None => {
                let mut text = String::from_str(tool);
                text.append(": path outside project");
                Err(ToolRequest::Reject(ToolResult::err(text)))
            },
        }
    }

    /// The place of a path below the project root; `None` for a path that
    /// is not contained in the project.
    pub fn locate(&self, path: &str) -> (r: Option<PathBuf>)
        ensures
            match r {
                Some(full) => contained(self.project_root, path@) && full == resolved(
                    self.project_root,
                    path@,
                ),
                None => !contained(self.project_root, path@),
            },
    {
        if !path_stays_in_root(path) {
            return None;
        }
        let full = self.resolve_path(path);
        if !path_starts_with(&full, &self.project_root) {
            return None;
        }
        Some(full)
    }

    /// Reads a tool call: which tool it names, whether its arguments are
    /// there, and whether its path stays within the project. The result is
    /// what the file system is asked to do, or the refusal of the call. A
    /// refused call touches no file.
    pub fn prepare(&self, call: &ToolCall) -> (r: ToolRequest)
        ensures
            request_ok(self.project_root, *call, r),
    {
        let name = call.name.as_str();
        if same_text(name, "create_file") {
            self.prepare_write(call, true)
        } else if same_text(name, "read_file") {
            let path = match call.arg_str("path") {
                Some(p) => p,
                None => {
                    return Self::refuse_missing(name, "path");
                },
            };
            match self.within_root(name, path.as_str()) {
                Ok(full) => ToolRequest::ReadFile { full },
                Err(refusal) => refusal,
            }
        } else if same_text(name, "list_files") {
            let path = match call.arg_str("path") {
                Some(p) => p,
                None => String::from_str("."),
            };
            match self.within_root(name, path.as_str()) {
                Ok(full) => ToolRequest::ListFiles { full },
                Err(refusal) => refusal,
            }
        } else if same_text(name, "apply_patch") {
            let path = match call.arg_str("path") {
                Some(p) => p,
                None => {
                    return Self::refuse_missing(name, "path");
                },
            };
            let before = match call.arg_str("before") {
                Some(b) => b,
                None => {
                    return Self::refuse_missing(name, "before");
                },
            };
            let after = match call.arg_str("after") {
                Some(a) => a,
                None => {
                    return Self::refuse_missing(name, "after");
                },
            };
            match self.within_root(name, path.as_str()) {
                Ok(full) => ToolRequest::ApplyPatch { path, full, before, after },
                Err(refusal) => refusal,
            }
        } else if same_text(name, "update_file") {
            self.prepare_write(call, false)
        } else if same_text(name, "create_project") {
            let template = match call.arg_str("template") {
                Some(t) => t,
                None => {
                    return Self::refuse_missing(name, "template");
                },
            };
            ToolRequest::CreateProject { template, name: call.arg_str("name") }
        } else {
            let mut text = String::from_str("Unknown tool: ");
            text.append(name);
            ToolRequest::Reject(ToolResult::err(text))
        }
    }

    /// Reads a call that writes a whole file.
    fn prepare_write(&self, call: &ToolCall, create: bool) -> (r: ToolRequest)
        ensures
            ({
                let name = call.name@;
                let root = self.project_root;
                match (call.arg_text("path"@), call.arg_text("content"@)) {
                    (None, _) => refused(r, missing(name, "path"@)),
                    (Some(_), None) => refused(r, missing(name, "content"@)),
                    (Some(p), Some(c)) => if !contained(root, p) {
                        refused(r, outside(name))
                    } else if create {
                        r matches ToolRequest::CreateFile { path, full, content } && path@ == p
                            && full == resolved(root, p) && content@ == c
                    } else {
                        r matches ToolRequest::UpdateFile { path, full, content } && path@ == p
                            && full == resolved(root, p) && content@ == c
                    },
                }
            }),
    {
        let name = call.name.as_str();
        let path = match call.arg_str("path") {
            Some(p) => p,
            None => {
                return Self::refuse_missing(name, "path");
            },
        };
        let content = match call.arg_str("content") {
            Some(c) => c,
            None => {
                return Self::refuse_missing(name, "content");
            },
        };
        match self.within_root(name, path.as_str()) {
            Ok(full) => if create {
                ToolRequest::CreateFile { path, full, content }
            } else {
                ToolRequest::UpdateFile { path, full, content }
            },
            Err(refusal) => refusal,
        }
    }

    /// The answer of `create_file`, once the file system has spoken.
    pub fn created_file(path: &str, outcome: Result<(), CreateFailure>) -> (r: ToolResult)
        ensures
            match outcome {
                Ok(_) => succeeded(r, "Created "@ + path@),
                Err(CreateFailure::Mkdir(e)) => failed(r, "create_file: mkdir failed: "@ + e@),
                Err(CreateFailure::Write(e)) => failed(r, "create_file: "@ + e@),
            },
    {
        match outcome {
            Ok(_) => {
                let mut text = String::from_str("Created ");
                text.append(path);
                ToolResult::ok(text)
            },
            Err(CreateFailure::Mkdir(e)) => {
                let mut text = String::from_str("create_file: mkdir failed: ");
                text.append(e.as_str());
                ToolResult::err(text)
            },
            Err(CreateFailure::Write(e)) => {
                let mut text = String::from_str("create_file: ");
                text.append(e.as_str());
                ToolResult::err(text)
            },
        }
    }

    /// The answer of `update_file`, once the file system has spoken.
    pub fn updated_file(path: &str, outcome: Result<(), String>) -> (r: ToolResult)
        ensures
            match outcome {
                Ok(_) => succeeded(r, "Updated "@ + path@),
                Err(e) => failed(r, "update_file: "@ + e@),
            },
    {
        match outcome {
            Ok(_) => {
                let mut text = String::from_str("Updated ");
                text.append(path);
                ToolResult::ok(text)
            },
            Err(e) => {
                let mut text = String::from_str("update_file: ");
                text.append(e.as_str());
                ToolResult::err(text)
            },
        }
    }

    /// The answer of `read_file`: the text that was read, or the failure.
    pub fn read_finished(outcome: Result<String, String>) -> (r: ToolResult)
        ensures
            match outcome {
                Ok(text) => succeeded(r, text@),
                Err(e) => failed(r, "read_file: "@ + e@),
            },
    {
        match outcome {
            Ok(text) => ToolResult::ok(text),
            Err(e) => {
                let mut text = String::from_str("read_file: ");
                text.append(e.as_str());
                ToolResult::err(text)
            },
        }
    }

    /// The text of a listing: each child once, tagged `(dir)` or `(file)`,
    /// the lines sorted.
    pub fn format_listing(entries: &Vec<DirEntry>) -> (r: String)
        ensures
            r@ == listing_text(entries@),
    {
        let mut lines: Vec<String> = Vec::new();
        let mut i: usize = 0;
        while i < entries.len()
            invariant
                i <= entries.len(),
                texts(lines@) == entry_lines(entries@).take(i as int),
            decreases entries.len() - i,
        {
            let mut line = entries[i].name.clone();
            line.append(if entries[i].is_dir { " (dir)" } else { " (file)" });
            let ghost before = texts(lines@);
            let ghost text = line@;
            lines.push(line);
            proof {
                assert(text == entry_line(entries@[i as int]));
                assert(entry_lines(entries@)[i as int] == entry_line(entries@[i as int]));
                assert(texts(lines@) =~= before.push(text));
                assert(entry_lines(entries@).take(i + 1) =~= entry_lines(entries@).take(
                    i as int,
                ).push(text));
            }
            i += 1;
        }
        proof {
            assert(entry_lines(entries@).take(entries@.len() as int) =~= entry_lines(entries@));
        }
        let sorted = sort_strings(lines);
        join_strings(&sorted, "\n")
    }

    /// The answer of `list_files`, once the file system has spoken.
    pub fn list_finished(outcome: &ListOutcome) -> (r: ToolResult)
        ensures
            match outcome {
                ListOutcome::NotADirectory => failed(r, "list_files: not a directory"@),
                ListOutcome::Failed(e) => failed(r, "list_files: "@ + e@),
                ListOutcome::Entries(entries) => succeeded(r, listing_text(entries@)),
            },
    {
        match outcome {
            ListOutcome::NotADirectory => ToolResult::err(
                String::from_str("list_files: not a directory"),
            ),
            ListOutcome::Failed(e) => {
                let mut text = String::from_str("list_files: ");
                text.append(e.as_str());
                ToolResult::err(text)
            },
            ListOutcome::Entries(entries) => ToolResult::ok(Self::format_listing(entries)),
        }
    }

    /// The answer of `apply_patch` where the file could not be read:
    /// `FileNotFound` for a missing file, `IOError` for any other failure.
    pub fn patch_read_failed(path: &str, failure: &IoFailure) -> (r: ToolResult)
        ensures
            failed(
                r,
                if failure.not_found {
                    "FileNotFound: path="@ + path@
                } else {
                    "IOError: path="@ + path@ + " detail="@ + failure.message@
                },
            ),
    {
        let error = if failure.not_found {
            PatchError::FileNotFound { path: String::from_str(path) }
        } else {
            PatchError::IoError {
                path: String::from_str(path),
                detail: failure.message.clone(),
            }
        };
        ToolResult::err(error.message_for_agent())
    }

    /// The answer of a patch that is not applied: `before` does not occur,
    /// or it occurs `n` times, `n` above one. The answer shows `n` itself
    /// up to `u32::MAX`.
    pub open spec fn rejected_patch_text(path: Seq<char>, n: nat) -> Seq<char> {
        if n == 0 {
            "BeforeBlockNotFound: path="@ + path + " detail="@ + not_found_detail()
        } else {
            "AmbiguousPatch: path="@ + path + " before_occurrences="@ + decimal(
                shown_count(n) as nat,
            )
        }
    }

    /// A patch whose `before` block occurs `n` times, `n` from two up to
    /// `u32::MAX`, is answered with `AmbiguousPatch` and the number `n`; a
    /// patch whose block does not occur, with `BeforeBlockNotFound`.
    pub proof fn law_rejection_shows_count(path: Seq<char>, n: nat)
        requires
            n != 1,
            n <= u32::MAX,
        ensures
            n >= 2 ==> Self::rejected_patch_text(path, n) == "AmbiguousPatch: path="@ + path
                + " before_occurrences="@ + decimal(n),
            n == 0 ==> Self::rejected_patch_text(path, n) == "BeforeBlockNotFound: path="@ + path
                + " detail=exact 'before' block not found in file"@,
    {
        reveal_strlit(" detail=");
        reveal_strlit("exact 'before' block not found in file");
        reveal_strlit(" detail=exact 'before' block not found in file");
        if n == 0 {
            assert(" detail=exact 'before' block not found in file"@ =~= " detail="@
                + not_found_detail());
            assert(Self::rejected_patch_text(path, n) =~= "BeforeBlockNotFound: path="@ + path
                + " detail=exact 'before' block not found in file"@);
        }
    }

    /// Decides `apply_patch` on the content that was read. Where `before`
    /// occurs exactly once, the result is the new content to write. In any
    /// other case nothing is to be written, and the result is the answer
    /// of the tool: the error that says how often `before` occurs.
    pub fn decide_patch(path: &str, current: &str, before: &str, after: &str) -> (r: Result<
        String,
        ToolResult,
    >)
        ensures
            match r {
                Ok(content) => occurrences(current@, before@) == 1 && content@ == replace_first(
                    current@,
                    before@,
                    after@,
                ),
                Err(answer) => occurrences(current@, before@) != 1 && failed(
                    answer,
                    Self::rejected_patch_text(path@, occurrences(current@, before@)),
                ),
            },
    {
        match apply_exact_patch(path, current, before, after) {
            Ok(content) => Ok(content),
            Err(e) => Err(ToolResult::err(e.message_for_agent())),
        }
    }

    /// The answer of `apply_patch`, once the new content was written or
    /// could not be.
    pub fn patch_written(path: &str, outcome: Result<(), String>) -> (r: ToolResult)
        ensures
            match outcome {
                Ok(_) => succeeded(r, "Patched "@ + path@),
                Err(e) => failed(r, "IOError: path="@ + path@ + " detail="@ + e@),
            },
    {
        match outcome {
            Ok(_) => {
                let mut text = String::from_str("Patched ");
                text.append(path);
                ToolResult::ok(text)
            },
            Err(e) => {
                let error = PatchError::IoError { path: String::from_str(path), detail: e };
                ToolResult::err(error.message_for_agent())
            },
        }
    }

    /// The text of a path for the agent: what is left of it below the
    /// project root, or all of it where it is not below the root.
    pub open spec fn shown_path(root: PathBuf, path: PathBuf) -> Seq<char> {
        match path_below(path, root) {
            Some(rest) => path_text(rest),
            None => path_text(path),
        }
    }

    /// The text of a path for the agent.
    pub fn show_path(&self, path: &PathBuf) -> (r: String)
        ensures
            r@ == Self::shown_path(self.project_root, *path),
    {
        match path_strip_prefix(path, &self.project_root) {
            Some(rest) => path_to_text(&rest),
            None => path_to_text(path),
        }
    }

    /// The guidance given where the project is there already.
    pub open spec fn exists_text(shown: Seq<char>) -> Seq<char> {
        "Project already exists at "@ + shown + ". Use list_files(\""@ + shown
            + "\") and read_file(\"{path}\") to work with it."@
    }

    /// The answer of `create_project`, once the project was made or could
    /// not be. A project that is there already is no failure: the answer
    /// says how to go on with it.
    pub fn project_created(&self, outcome: &Result<PathBuf, WorkspaceError>) -> (r: ToolResult)
        ensures
            match outcome {
                Ok(path) => succeeded(
                    r,
                    "Created project at "@ + Self::shown_path(self.project_root, *path),
                ),
                Err(WorkspaceError::PathExists(path)) => succeeded(
                    r,
                    Self::exists_text(Self::shown_path(self.project_root, *path)),
                ),
                Err(e) => failed(r, "create_project: "@ + e.message_text()),
            },
    {
        match outcome {
            Ok(path) => {
                let mut text = String::from_str("Created project at ");
                let shown = self.show_path(path);
                text.append(shown.as_str());
                ToolResult::ok(text)
            },
            Err(WorkspaceError::PathExists(path)) => {
                let shown = self.show_path(path);
                let mut text = String::from_str("Project already exists at ");
                text.append(shown.as_str());
                text.append(". Use list_files(\"");
                text.append(shown.as_str());
                text.append("\") and read_file(\"{path}\") to work with it.");
                ToolResult::ok(text)
            },
            Err(e) => {
                let mut text = String::from_str("create_project: ");
                let inner = e.message();
                text.append(inner.as_str());
                ToolResult::err(text)
            },
        }
    }
}

} // verus!
