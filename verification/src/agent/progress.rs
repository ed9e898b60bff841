//! What a run reports: progress for the user interface, and the effects
//! that the caller carries out on the run's behalf.

use crate::audit::{AuditEvent, AuditEventView, AuditSessionMeta, AuditSessionMetaView};
use crate::text::opt_view;
use vstd::prelude::*;
use vstd::string::StringExecFns;

verus! {

/// Progress of a run, as the user interface is told.
#[derive(Debug, Clone)]
#[allow(inconsistent_fields)]
pub enum AgentProgress {
    SessionStarted { session_id: String },
    ModelSelected { role: String, model_id: String },
    /// The model is generating.
    Thinking,
    ToolCall { name: String, path: Option<String> },
    ToolResult { success: bool, output: String },
    PatchApplyStarted { path: String },
    PatchApplySuccess { path: String },
    /// What a patch replaced, so that it can be rolled back.
    PatchApplied { path: String, before: String, after: String },
    PatchApplyError { path: String, message: String },
    Done { message: String },
}

/// The value of an `AgentProgress`.
#[allow(inconsistent_fields)]
pub enum AgentProgressView {
    SessionStarted { session_id: Seq<char> },
    ModelSelected { role: Seq<char>, model_id: Seq<char> },
    Thinking,
    ToolCall { name: Seq<char>, path: Option<Seq<char>> },
    ToolResult { success: bool, output: Seq<char> },
    PatchApplyStarted { path: Seq<char> },
    PatchApplySuccess { path: Seq<char> },
    PatchApplied { path: Seq<char>, before: Seq<char>, after: Seq<char> },
    PatchApplyError { path: Seq<char>, message: Seq<char> },
    Done { message: Seq<char> },
}

impl View for AgentProgress {
    type V = AgentProgressView;

    open spec fn view(&self) -> AgentProgressView {
        match self {
            AgentProgress::SessionStarted { session_id } => AgentProgressView::SessionStarted {
                session_id: session_id@,
            },
            AgentProgress::ModelSelected { role, model_id } => AgentProgressView::ModelSelected {
                role: role@,
                model_id: model_id@,
            },
            AgentProgress::Thinking => AgentProgressView::Thinking,
            AgentProgress::ToolCall { name, path } => AgentProgressView::ToolCall {
                name: name@,
                path: opt_view(*path),
            },
            AgentProgress::ToolResult { success, output } => AgentProgressView::ToolResult {
                success: *success,
                output: output@,
            },
            AgentProgress::PatchApplyStarted { path } => AgentProgressView::PatchApplyStarted {
                path: path@,
            },
            AgentProgress::PatchApplySuccess { path } => AgentProgressView::PatchApplySuccess {
                path: path@,
            },
            AgentProgress::PatchApplied { path, before, after } => AgentProgressView::PatchApplied {
                path: path@,
                before: before@,
                after: after@,
            },
            AgentProgress::PatchApplyError { path, message } => AgentProgressView::PatchApplyError {
                path: path@,
                message: message@,
            },
            AgentProgress::Done { message } => AgentProgressView::Done { message: message@ },
        }
    }
}

/// How a run ended.
#[derive(Debug, Clone, Copy, PartialEq, Eq, Structural)]
pub enum RunStatus {
    /// The model gave its final answer.
    Done,
    /// A guardrail stopped the run.
    Aborted,
    /// The model failed, or answered nothing.
    Error,
}

impl RunStatus {
    /// The status as it is recorded.
    pub open spec fn name(&self) -> Seq<char> {
        match self {
            RunStatus::Done => "done"@,
            RunStatus::Aborted => "aborted"@,
            RunStatus::Error => "error"@,
        }
    }

    pub fn as_str(&self) -> (r: &'static str)
        ensures
            r@ == self.name(),
    {
        match self {
            RunStatus::Done => "done",
            RunStatus::Aborted => "aborted",
            RunStatus::Error => "error",
        }
    }
}

/// Something the caller does for the run, in the order given: nothing of
/// it can fail the run.
#[derive(Debug, Clone)]
pub enum Effect {
    /// Append a line to the agent's log.
    Log(String),
    /// Append an event to the session's audit trail.
    Audit(AuditEvent),
    /// Write the session's summary.
    SaveMeta(AuditSessionMeta),
    /// Set the end time and this status in the session's summary.
    FinishMeta(String),
    /// Tell the user interface.
    Progress(AgentProgress),
}

/// The value of an `Effect`.
pub enum EffectView {
    Log(Seq<char>),
    Audit(AuditEventView),
    SaveMeta(AuditSessionMetaView),
    FinishMeta(Seq<char>),
    Progress(AgentProgressView),
}

impl View for Effect {
    type V = EffectView;

    open spec fn view(&self) -> EffectView {
        match self {
            Effect::Log(line) => EffectView::Log(line@),
            Effect::Audit(event) => EffectView::Audit(event@),
            Effect::SaveMeta(meta) => EffectView::SaveMeta(meta@),
            Effect::FinishMeta(status) => EffectView::FinishMeta(status@),
            Effect::Progress(progress) => EffectView::Progress(progress@),
        }
    }
}

/// The values of a list of effects.
pub open spec fn effects_view(effects: Seq<Effect>) -> Seq<EffectView> {
    effects.map_values(|e: Effect| e@)
}

/// A log line.
pub open spec fn log_of(line: Seq<char>) -> EffectView {
    EffectView::Log(line)
}

/// The final message to the user interface.
pub open spec fn done_of(message: Seq<char>) -> EffectView {
    EffectView::Progress(AgentProgressView::Done { message })
}

/// The two effects that close a session: the event `SessionEnd` in the
/// audit trail, and the end of the summary.
pub open spec fn session_end_of(status: Seq<char>) -> Seq<EffectView> {
    seq![
        EffectView::Audit(AuditEventView::SessionEnd { status }),
        EffectView::FinishMeta(status),
    ]
}

/// An effect closes the session in the audit trail.
pub open spec fn is_session_end(e: EffectView) -> bool {
    e matches EffectView::Audit(AuditEventView::SessionEnd { .. })
}

/// An effect is the final message to the user interface.
pub open spec fn is_done(e: EffectView) -> bool {
    e matches EffectView::Progress(AgentProgressView::Done { .. })
}

/// Number of effects that close the session in the audit trail.
pub open spec fn session_ends(effects: Seq<EffectView>) -> nat
    decreases effects.len(),
{
    if effects.len() == 0 {
        0
    } else {
        session_ends(effects.drop_last()) + if is_session_end(effects.last()) {
            1nat
        } else {
            0nat
        }
    }
}

/// Number of effects that are a final message to the user interface.
pub open spec fn dones(effects: Seq<EffectView>) -> nat
    decreases effects.len(),
{
    if effects.len() == 0 {
        0
    } else {
        dones(effects.drop_last()) + if is_done(effects.last()) {
            1nat
        } else {
            0nat
        }
    }
}

/// The effects close the session exactly once, with the given status, and
/// hold exactly one final message.
pub open spec fn closes_once(effects: Seq<EffectView>, status: Seq<char>) -> bool {
    &&& session_ends(effects) == 1
    &&& dones(effects) == 1
    &&& effects.contains(EffectView::Audit(AuditEventView::SessionEnd { status }))
    &&& effects.contains(EffectView::FinishMeta(status))
}

/// The effects neither close the session nor hold a final message.
pub open spec fn leaves_open(effects: Seq<EffectView>) -> bool {
    session_ends(effects) == 0 && dones(effects) == 0
}

/// Counting over two lists in a row is counting over each.
pub proof fn lemma_counts_concat(a: Seq<EffectView>, b: Seq<EffectView>)
    ensures
        session_ends(a + b) == session_ends(a) + session_ends(b),
        dones(a + b) == dones(a) + dones(b),
    decreases b.len(),
{
    if b.len() == 0 {
        assert(a + b =~= a);
    } else {
        lemma_counts_concat(a, b.drop_last());
        assert((a + b).drop_last() =~= a + b.drop_last());
        assert((a + b).last() == b.last());
    }
}

/// A single effect counts for what it is.
pub proof fn lemma_counts_one(e: EffectView)
    ensures
        session_ends(seq![e]) == if is_session_end(e) {
            1nat
        } else {
            0nat
        },
        dones(seq![e]) == if is_done(e) {
            1nat
        } else {
            0nat
        },
{
    assert(seq![e].drop_last() =~= Seq::<EffectView>::empty());
    assert(seq![e].last() == e);
    assert(session_ends(seq![e].drop_last()) == 0);
    assert(dones(seq![e].drop_last()) == 0);
}

/// Closing the session is one close and no final message.
pub proof fn lemma_counts_session_end(status: Seq<char>)
    ensures
        session_ends(session_end_of(status)) == 1,
        dones(session_end_of(status)) == 0,
{
    let first = EffectView::Audit(AuditEventView::SessionEnd { status });
    let second = EffectView::FinishMeta(status);
    assert(session_end_of(status) =~= seq![first] + seq![second]);
    lemma_counts_one(first);
    lemma_counts_one(second);
    lemma_counts_concat(seq![first], seq![second]);
}

/// Appends a log line.
pub fn push_log(effects: &mut Vec<Effect>, line: &str)
    ensures
        effects_view(final(effects)@) == effects_view(old(effects)@).push(log_of(line@)),
{
    effects.push(Effect::Log(String::from_str(line)));
    proof {
        assert(effects_view(effects@) =~= effects_view(old(effects)@).push(log_of(line@)));
    }
}

/// Appends an audit event.
pub fn push_audit(effects: &mut Vec<Effect>, event: AuditEvent)
    ensures
        effects_view(final(effects)@) == effects_view(old(effects)@).push(
            EffectView::Audit(event@),
        ),
{
    effects.push(Effect::Audit(event));
    proof {
        assert(effects_view(effects@) =~= effects_view(old(effects)@).push(
            EffectView::Audit(event@),
        ));
    }
}

/// Appends a progress report.
pub fn push_progress(effects: &mut Vec<Effect>, progress: AgentProgress)
    ensures
        effects_view(final(effects)@) == effects_view(old(effects)@).push(
            EffectView::Progress(progress@),
        ),
{
    effects.push(Effect::Progress(progress));
    proof {
        assert(effects_view(effects@) =~= effects_view(old(effects)@).push(
            EffectView::Progress(progress@),
        ));
    }
}

/// Appends the final message to the user interface.
pub fn push_done(effects: &mut Vec<Effect>, message: &str)
    ensures
        effects_view(final(effects)@) == effects_view(old(effects)@).push(done_of(message@)),
{
    push_progress(effects, AgentProgress::Done { message: String::from_str(message) });
}

/// Closes the session with `status`: the event `SessionEnd` goes to the
/// audit trail, and the summary gets its end time and the status.
pub fn emit_session_end(effects: &mut Vec<Effect>, status: &str)
    ensures
        effects_view(final(effects)@) == effects_view(old(effects)@) + session_end_of(status@),
{
    effects.push(Effect::Audit(AuditEvent::SessionEnd { status: String::from_str(status) }));
    effects.push(Effect::FinishMeta(String::from_str(status)));
    proof {
        assert(effects_view(effects@) =~= effects_view(old(effects)@) + session_end_of(status@));
    }
}

} // verus!
