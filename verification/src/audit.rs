//! The audit trail of a session: an append-only stream of events, and a
//! summary record that is rewritten when the session starts and when it ends.

use crate::order::{
    law_sorted_is_ordered, lemma_lex_antisymmetric, lemma_lex_total, lemma_lex_transitive, lex_le,
    ordered, sort_strings, sorted_texts,
};
use crate::paths::{path_from, path_join, path_joined, path_of};
use crate::text::{
    chars_of, ends_with, has_suffix, opt_view, same_text, slice_chars, string_of, texts,
};
use std::path::PathBuf;
use vstd::prelude::*;
use vstd::string::StringExecFns;

verus! {

/// Where a session ran.
#[derive(Debug, Clone)]
pub struct AuditEnvironment {
    pub os: String,
    pub arch: String,
    pub offline: bool,
}

/// The value of an `AuditEnvironment`.
pub struct AuditEnvironmentView {
    pub os: Seq<char>,
    pub arch: Seq<char>,
    pub offline: bool,
}

impl View for AuditEnvironment {
    type V = AuditEnvironmentView;

    open spec fn view(&self) -> AuditEnvironmentView {
        AuditEnvironmentView { os: self.os@, arch: self.arch@, offline: self.offline }
    }
}

/// The view of an optional environment.
pub open spec fn opt_env_view(e: Option<AuditEnvironment>) -> Option<AuditEnvironmentView> {
    match e {
        Some(env) => Some(env@),
        None => None,
    }
}

/// One fact about a session. Events are appended in the order in which
/// the run meets them, and are never rewritten.
#[derive(Debug, Clone)]
#[allow(inconsistent_fields)]
pub enum AuditEvent {
    SessionStart {
        session_id: String,
        mode: String,
        task: String,
        policy: String,
        environment: Option<AuditEnvironment>,
    },
    TaskClassified { role: String, reason: String },
    ModelSelected { role: String, model: String, provider: String },
    PromptSent { tokens: Option<usize> },
    StreamChunk { size: usize },
    ToolCall { tool: String, path: Option<String> },
    ToolResult { success: bool, output_len: Option<usize> },
    PatchApplied { path: String, hash: Option<String> },
    Error { message: String },
    SessionEnd { status: String },
}

/// The value of an `AuditEvent`.
#[allow(inconsistent_fields)]
pub enum AuditEventView {
    SessionStart {
        session_id: Seq<char>,
        mode: Seq<char>,
        task: Seq<char>,
        policy: Seq<char>,
        environment: Option<AuditEnvironmentView>,
    },
    TaskClassified { role: Seq<char>, reason: Seq<char> },
    ModelSelected { role: Seq<char>, model: Seq<char>, provider: Seq<char> },
    PromptSent { tokens: Option<usize> },
    StreamChunk { size: usize },
    ToolCall { tool: Seq<char>, path: Option<Seq<char>> },
    ToolResult { success: bool, output_len: Option<usize> },
    PatchApplied { path: Seq<char>, hash: Option<Seq<char>> },
    Error { message: Seq<char> },
    SessionEnd { status: Seq<char> },
}

impl View for AuditEvent {
    type V = AuditEventView;

    open spec fn view(&self) -> AuditEventView {
        match self {
            AuditEvent::SessionStart { session_id, mode, task, policy, environment } => {
                AuditEventView::SessionStart {
                    session_id: session_id@,
                    mode: mode@,
                    task: task@,
                    policy: policy@,
                    environment: opt_env_view(*environment),
                }
            },
            AuditEvent::TaskClassified { role, reason } => AuditEventView::TaskClassified {
                role: role@,
                reason: reason@,
            },
            AuditEvent::ModelSelected { role, model, provider } => AuditEventView::ModelSelected {
                role: role@,
                model: model@,
                provider: provider@,
            },
            AuditEvent::PromptSent { tokens } => AuditEventView::PromptSent { tokens: *tokens },
            AuditEvent::StreamChunk { size } => AuditEventView::StreamChunk { size: *size },
            AuditEvent::ToolCall { tool, path } => AuditEventView::ToolCall {
                tool: tool@,
                path: opt_view(*path),
            },
            AuditEvent::ToolResult { success, output_len } => AuditEventView::ToolResult {
                success: *success,
                output_len: *output_len,
            },
            AuditEvent::PatchApplied { path, hash } => AuditEventView::PatchApplied {
                path: path@,
                hash: opt_view(*hash),
            },
            AuditEvent::Error { message } => AuditEventView::Error { message: message@ },
            AuditEvent::SessionEnd { status } => AuditEventView::SessionEnd { status: status@ },
        }
    }
}

/// The summary of a session.
#[derive(Debug, Clone)]
pub struct AuditSessionMeta {
    pub session_id: String,
    pub started_at: String,
    pub ended_at: Option<String>,
    pub mode: String,
    pub task: String,
    pub status: String,
    pub policy: String,
    pub environment: Option<AuditEnvironment>,
}

/// The value of an `AuditSessionMeta`.
pub struct AuditSessionMetaView {
    pub session_id: Seq<char>,
    pub started_at: Seq<char>,
    pub ended_at: Option<Seq<char>>,
    pub mode: Seq<char>,
    pub task: Seq<char>,
    pub status: Seq<char>,
    pub policy: Seq<char>,
    pub environment: Option<AuditEnvironmentView>,
}

impl View for AuditSessionMeta {
    type V = AuditSessionMetaView;

    open spec fn view(&self) -> AuditSessionMetaView {
        AuditSessionMetaView {
            session_id: self.session_id@,
            started_at: self.started_at@,
            ended_at: opt_view(self.ended_at),
            mode: self.mode@,
            task: self.task@,
            status: self.status@,
            policy: self.policy@,
            environment: opt_env_view(self.environment),
        }
    }
}

impl AuditSessionMeta {
    /// The summary of a session that ended at `ended_at` with `status`:
    /// these two change, and nothing else does.
    pub fn finished(self, ended_at: String, status: &str) -> (r: AuditSessionMeta)
        ensures
            r@ == (AuditSessionMetaView {
                ended_at: Some(ended_at@),
                status: status@,
                ..self@
            }),
    {
        let mut meta = self;
        meta.ended_at = Some(ended_at);
        meta.status = String::from_str(status);
        meta
    }
}

/// The name of the file that holds the events of a session.
pub fn session_log_name(session_id: &str) -> (r: String)
    ensures
        r@ == session_id@ + ".jsonl"@,
{
    let mut name = String::from_str(session_id);
    name.append(".jsonl");
    name
}

/// The name of the file that holds the summary of a session.
pub fn session_meta_name(session_id: &str) -> (r: String)
    ensures
        r@ == session_id@ + "_meta.json"@,
{
    let mut name = String::from_str(session_id);
    name.append("_meta.json");
    name
}

/// The session that an event file belongs to: its name without the ending
/// `.jsonl`. A file of another name belongs to none.
pub open spec fn session_of(file_name: Seq<char>) -> Option<Seq<char>> {
    if has_suffix(file_name, ".jsonl"@) {
        Some(file_name.subrange(0, file_name.len() - ".jsonl"@.len()))
    } else {
        None
    }
}

/// The session that an event file belongs to.
pub fn session_id_of(file_name: &str) -> (r: Option<String>)
    ensures
        opt_view(r) == session_of(file_name@),
{
    let name = chars_of(file_name);
    let ending = chars_of(".jsonl");
    if ends_with(&name, &ending) {
        Some(string_of(&slice_chars(&name, 0, name.len() - ending.len())))
    } else {
        None
    }
}

/// An event file belongs to exactly one session: the session whose name
/// it bears.
pub proof fn law_event_file_names_its_session(session_id: Seq<char>)
    ensures
        session_of(session_id + ".jsonl"@) == Some(session_id),
{
    let name = session_id + ".jsonl"@;
    let ending = ".jsonl"@;
    assert(name.subrange(name.len() - ending.len(), name.len() as int) =~= ending);
    assert(name.subrange(0, name.len() - ending.len()) =~= session_id);
}

/// The sessions of the given event files, in order, as often as they occur.
pub open spec fn sessions_of(file_names: Seq<Seq<char>>) -> Seq<Seq<char>>
    decreases file_names.len(),
{
    if file_names.len() == 0 {
        file_names
    } else {
        let rest = sessions_of(file_names.drop_last());
        match session_of(file_names.last()) {
            Some(id) => rest.push(id),
            None => rest,
        }
    }
}

/// An ordered list without what repeats the text just before.
pub open spec fn without_repeats(s: Seq<Seq<char>>) -> Seq<Seq<char>>
    decreases s.len(),
{
    if s.len() == 0 {
        s
    } else {
        let rest = without_repeats(s.drop_last());
        if rest.len() > 0 && rest.last() == s.last() {
            rest
        } else {
            rest.push(s.last())
        }
    }
}

/// The sessions that a directory of the audit trail holds: the names of
/// its event files without their ending, each once, the last in order first.
pub open spec fn listed_sessions(file_names: Seq<Seq<char>>) -> Seq<Seq<char>> {
    without_repeats(sorted_texts(sessions_of(file_names))).reverse()
}

/// Each text comes before the next and differs from it.
pub open spec fn strictly_ordered(s: Seq<Seq<char>>) -> bool {
    forall|i: int, j: int|
        0 <= i < j < s.len() ==> lex_le(#[trigger] s[i], #[trigger] s[j]) && s[i] != s[j]
}

/// An ordered list without its repeats is strictly ordered, and it ends
/// as the list ends.
pub proof fn lemma_without_repeats(s: Seq<Seq<char>>)
    requires
        ordered(s),
    ensures
        strictly_ordered(without_repeats(s)),
        s.len() > 0 ==> without_repeats(s).len() > 0 && without_repeats(s).last() == s.last(),
        s.len() == 0 ==> without_repeats(s).len() == 0,
    decreases s.len(),
{
    if s.len() > 0 {
        let front = s.drop_last();
        assert forall|i: int, j: int| 0 <= i < j < front.len() implies lex_le(
            #[trigger] front[i],
            #[trigger] front[j],
        ) by {
            assert(front[i] == s[i] && front[j] == s[j]);
        }
        lemma_without_repeats(front);
        let rest = without_repeats(front);
        let x = s.last();
        if !(rest.len() > 0 && rest.last() == x) {
            let r = rest.push(x);
            assert forall|i: int, j: int| 0 <= i < j < r.len() implies lex_le(
                #[trigger] r[i],
                #[trigger] r[j],
            ) && r[i] != r[j] by {
                if j < rest.len() {
                    assert(r[i] == rest[i] && r[j] == rest[j]);
                } else {
                    let last = rest.last();
                    assert(r[i] == rest[i] && r[j] == x);
                    assert(last == front.last());
                    assert(front.last() == s[s.len() - 2]);
                    assert(lex_le(s[s.len() - 2], s[s.len() - 1]));
                    if i < rest.len() - 1 {
                        assert(lex_le(rest[i], rest[rest.len() - 1]));
                    } else {
                        lemma_lex_total(last, last, 0);
                    }
                    lemma_lex_transitive(rest[i], last, x, 0);
                    if rest[i] == x {
                        lemma_lex_antisymmetric(last, x, 0);
                    }
                }
            }
        }
    }
}

/// No session is listed twice, and the sessions are listed last first.
pub proof fn law_sessions_listed_once(file_names: Seq<Seq<char>>)
    ensures
        forall|i: int, j: int|
            0 <= i < j < listed_sessions(file_names).len() ==> lex_le(
                #[trigger] listed_sessions(file_names)[j],
                #[trigger] listed_sessions(file_names)[i],
            ) && listed_sessions(file_names)[i] != listed_sessions(file_names)[j],
{
    let sorted = sorted_texts(sessions_of(file_names));
    law_sorted_is_ordered(sessions_of(file_names));
    lemma_without_repeats(sorted);
    let forward = without_repeats(sorted);
    let listed = listed_sessions(file_names);
    assert forall|i: int, j: int| 0 <= i < j < listed.len() implies lex_le(
        #[trigger] listed[j],
        #[trigger] listed[i],
    ) && listed[i] != listed[j] by {
        let a = forward.len() - 1 - j;
        let b = forward.len() - 1 - i;
        assert(listed[j] == forward[a] && listed[i] == forward[b]);
        assert(lex_le(forward[a], forward[b]) && forward[a] != forward[b]);
    }
}

/// Lists the sessions that a directory of the audit trail holds, given the
/// names of its files.
pub fn list_sessions(file_names: &Vec<String>) -> (r: Vec<String>)
    ensures
        texts(r@) == listed_sessions(texts(file_names@)),
{
    let mut ids: Vec<String> = Vec::new();
    let mut i: usize = 0;
    proof {
        assert(texts(file_names@).take(0) =~= Seq::<Seq<char>>::empty());
    }
    while i < file_names.len()
        invariant
            i <= file_names.len(),
            texts(ids@) == sessions_of(texts(file_names@).take(i as int)),
        decreases file_names.len() - i,
    {
        proof {
            let more = texts(file_names@).take(i + 1);
            assert(more.drop_last() =~= texts(file_names@).take(i as int));
            assert(more.last() == file_names@[i as int]@);
        }
        let ghost before = texts(ids@);
        match session_id_of(file_names[i].as_str()) {
            Some(id) => {
                let ghost text = id@;
                ids.push(id);
                proof {
                    assert(texts(ids@) =~= before.push(text));
                }
            },
            None => {},
        }
        i += 1;
    }
    proof {
        assert(texts(file_names@).take(file_names@.len() as int) =~= texts(file_names@));
    }
    let sorted = sort_strings(ids);
    let ghost all = texts(sorted@);
    let mut kept: Vec<String> = Vec::new();
    let mut k: usize = 0;
    proof {
        assert(all.take(0) =~= Seq::<Seq<char>>::empty());
    }
    while k < sorted.len()
        invariant
            k <= sorted.len(),
            texts(sorted@) == all,
            texts(kept@) == without_repeats(all.take(k as int)),
        decreases sorted.len() - k,
    {
        proof {
            let more = all.take(k + 1);
            assert(more.drop_last() =~= all.take(k as int));
            assert(more.last() == sorted@[k as int]@);
            if kept@.len() > 0 {
                assert(texts(kept@).last() == kept@[kept@.len() - 1]@);
            }
        }
        let repeat = kept.len() > 0 && same_text(
            kept[kept.len() - 1].as_str(),
            sorted[k].as_str(),
        );
        if !repeat {
            let ghost before = texts(kept@);
            let item = sorted[k].clone();
            let ghost text = item@;
            kept.push(item);
            proof {
                assert(texts(kept@) =~= before.push(text));
            }
        }
        k += 1;
    }
    proof {
        assert(all.take(all.len() as int) =~= all);
    }
    let ghost forward = texts(kept@);
    let mut listed: Vec<String> = Vec::new();
    let mut n: usize = kept.len();
    while n > 0
        invariant
            n <= kept.len(),
            forward == texts(kept@),
            listed@.len() == kept@.len() - n,
            forall|j: int|
                0 <= j < listed@.len() ==> listed@[j]@ == forward[forward.len() - 1 - j],
        decreases n,
    {
        n -= 1;
        listed.push(kept[n].clone());
    }
    proof {
        assert(texts(listed@) =~= forward.reverse());
    }
    listed
}

/// The lines of a text from index `i` on that are not empty, where
/// `start` is the index at which the current line begins. A line ends at a
/// line feed, and a carriage return just before the line feed is no part
/// of it.
pub open spec fn filled_lines(content: Seq<char>, start: int, i: int) -> Seq<Seq<char>>
    decreases content.len() - i,
{
    if i < start || start < 0 {
        Seq::<Seq<char>>::empty()
    } else if i >= content.len() {
        if start < content.len() {
            seq![content.subrange(start, content.len() as int)]
        } else {
            Seq::<Seq<char>>::empty()
        }
    } else if content[i] == '\n' {
        let end = if i > start && content[i - 1] == '\r' {
            i - 1
        } else {
            i
        };
        (if end > start {
            seq![content.subrange(start, end)]
        } else {
            Seq::<Seq<char>>::empty()
        }) + filled_lines(content, i + 1, i + 1)
    } else {
        filled_lines(content, start, i + 1)
    }
}

/// The lines of an event file that hold an event: all lines but the empty ones.
pub fn event_lines(content: &str) -> (r: Vec<String>)
    ensures
        texts(r@) == filled_lines(content@, 0, 0),
{
    let chars = chars_of(content);
    let mut lines: Vec<String> = Vec::new();
    let mut start: usize = 0;
    let mut i: usize = 0;
    while i < chars.len()
        invariant
            start <= i <= chars.len(),
            chars@ == content@,
            filled_lines(content@, 0, 0) == texts(lines@) + filled_lines(
                content@,
                start as int,
                i as int,
            ),
        decreases chars.len() - i,
    {
        if chars[i] == '\n' {
            let end = if i > start && chars[i - 1] == '\r' {
                i - 1
            } else {
                i
            };
            let ghost before = texts(lines@);
            let ghost rest = filled_lines(content@, i + 1, i + 1);
            if end > start {
                let line = string_of(&slice_chars(&chars, start, end));
                let ghost text = line@;
                lines.push(line);
                proof {
                    assert(texts(lines@) =~= before.push(text));
                    assert(before + (seq![text] + rest) =~= before.push(text) + rest);
                }
            } else {
                proof {
                    assert(before + (Seq::<Seq<char>>::empty() + rest) =~= before + rest);
                }
            }
            start = i + 1;
        }
        i += 1;
    }
    if start < chars.len() {
        let ghost before = texts(lines@);
        let line = string_of(&slice_chars(&chars, start, chars.len()));
        let ghost text = line@;
        lines.push(line);
        proof {
            assert(texts(lines@) =~= before.push(text));
            assert(before + seq![text] =~= before.push(text));
        }
    } else {
        proof {
            assert(texts(lines@) + Seq::<Seq<char>>::empty() =~= texts(lines@));
        }
    }
    lines
}

/// The directory `leaf` of the application's files: below the project
/// where the project's root exists, else below the user's home, else
/// below the working directory.
pub open spec fn state_dir_of(
    project_root: Option<PathBuf>,
    root_exists: bool,
    home: Option<PathBuf>,
    leaf: Seq<char>,
) -> PathBuf {
    let base = match project_root {
        Some(root) => if root_exists {
            path_joined(root, ".kengaide"@)
        } else {
            match home {
                Some(h) => path_joined(h, ".kengaide"@),
                None => path_of(".kengaide"@),
            }
        },
        None => match home {
            Some(h) => path_joined(h, ".kengaide"@),
            None => path_of(".kengaide"@),
        },
    };
    path_joined(base, leaf)
}

/// The directory `leaf` of the application's files.
pub fn state_dir(
    project_root: Option<&PathBuf>,
    root_exists: bool,
    home: Option<&PathBuf>,
    leaf: &str,
) -> (r: PathBuf)
    ensures
        r == state_dir_of(
            match project_root {
                Some(p) => Some(*p),
                None => None,
            },
            root_exists,
            match home {
                Some(h) => Some(*h),
                None => None,
            },
            leaf@,
        ),
{
    let below_project = match project_root {
        Some(root) => if root_exists {
            Some(path_join(root, ".kengaide"))
        } else {
            None
        },
        None => None,
    };
    let base = match below_project {
        Some(base) => base,
        None => match home {
            Some(h) => path_join(h, ".kengaide"),
            None => path_from(".kengaide"),
        },
    };
    path_join(&base, leaf)
}

/// The directory of the audit trail.
pub fn audit_dir(project_root: Option<&PathBuf>, root_exists: bool, home: Option<&PathBuf>) -> (r:
    PathBuf)
    ensures
        r == state_dir_of(
            match project_root {
                Some(p) => Some(*p),
                None => None,
            },
            root_exists,
            match home {
                Some(h) => Some(*h),
                None => None,
            },
            "audit"@,
        ),
{
    state_dir(project_root, root_exists, home, "audit")
}

/// The directory of the logs.
pub fn logs_dir(project_root: Option<&PathBuf>, root_exists: bool, home: Option<&PathBuf>) -> (r:
    PathBuf)
    ensures
        r == state_dir_of(
            match project_root {
                Some(p) => Some(*p),
                None => None,
            },
            root_exists,
            match home {
                Some(h) => Some(*h),
                None => None,
            },
            "logs"@,
        ),
{
    state_dir(project_root, root_exists, home, "logs")
}

/// A line of a log: the time in brackets, the text, and a line feed.
pub fn log_line(timestamp: &str, line: &str) -> (r: String)
    ensures
        r@ == "["@ + timestamp@ + "] "@ + line@ + "\n"@,
{
    let mut s = String::from_str("[");
    s.append(timestamp);
    s.append("] ");
    s.append(line);
    s.append("\n");
    s
}

/// The environment of a session on the given system. A session counts as
/// online.
pub fn current_environment(os: &str, arch: &str) -> (r: AuditEnvironment)
    ensures
        r@ == (AuditEnvironmentView { os: os@, arch: arch@, offline: false }),
{
    AuditEnvironment { os: String::from_str(os), arch: String::from_str(arch), offline: false }
}

} // verus!
