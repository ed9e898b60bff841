//! One run of the agent, turn by turn.
//!
//! The run decides; the caller acts. Each step takes what the caller
//! observed (the time, the model's response, a tool's result), moves the
//! run on, and returns what to do next together with the effects to carry
//! out, in order.

use crate::agent::guardrails::{
    approx_tokens, must_steer, needs_steering, record_failure, ring_push, ring_stuck, MAX_TIME_MS,
    MAX_TOKENS_PER_SESSION, MAX_TOOL_CALLS_PER_MESSAGE, SAME_ERROR_THRESHOLD,
};
use crate::agent::progress::{
    closes_once, done_of, effects_view, emit_session_end, leaves_open, lemma_counts_concat,
    lemma_counts_one, lemma_counts_session_end, log_of, push_audit, push_done, push_log,
    push_progress, session_end_of, AgentProgress, AgentProgressView, Effect, EffectView, RunStatus,
};
use crate::audit::{
    AuditEnvironment, AuditEvent, AuditEventView, AuditSessionMeta, AuditSessionMetaView,
};
use crate::orchestration::TaskRole;
use crate::error::AiRuntimeError;
use crate::json::json_equal;
use crate::parser::{denotes, parse_tool_call, parsed_call};
use crate::providers::{AiChunk, ProviderError};
use crate::text::{
    byte_len, byte_length, chars_of, clone_opt, decimal, decimal_string, has_prefix, opt_text,
    opt_view, same_text, starts_with, texts, trim_str, trimmed,
};
use crate::tools::types::ToolCall;
use vstd::prelude::*;
use vstd::string::StringExecFns;

verus! {

/// The final message of a run that reached its limit of turns.
pub const MAX_TURNS_MESSAGE: &'static str =
    "Агент остановлен: достигнут лимит шагов. Попробуй переформулировать задачу.";

/// The final message of a run that ran out of time.
pub const MAX_TIME_MESSAGE: &'static str =
    "Агент остановлен: превышено время работы. Попробуй разбить задачу на части.";

/// The final message of a run that used up its tokens.
pub const MAX_TOKENS_MESSAGE: &'static str =
    "Агент остановлен: превышен лимит токенов. Попробуй переформулировать задачу.";

/// The final message of a run whose model answered nothing.
pub const EMPTY_RESPONSE_MESSAGE: &'static str =
    "Агент остановлен: модель вернула пустой ответ. Попробуй переформулировать задачу или сменить провайдер.";

/// The final message of a run that reached its limit of tool calls.
pub const TOOL_CAP_MESSAGE: &'static str = "Достигнут лимит вызовов инструментов (8). Остановка.";

/// The final message of a run that repeated a tool call.
pub const REPEATED_CALL_MESSAGE: &'static str =
    "Агент остановлен: повторяющиеся действия. Попробуй переформулировать задачу.";

/// The final message of a run that met the same error three times.
pub const REPEATED_ERRORS_MESSAGE: &'static str =
    "Агент остановлен: повторяющиеся ошибки. Попробуй переформулировать задачу.";

/// What the model is told after a long answer that neither acts nor finishes.
pub const STEERING_NOTE: &'static str =
    "\n\n[System: You must either call a tool or explicitly finish. Do not output long explanations without taking action.]\n\nAssistant: ";

/// Where a run stands.
#[derive(Debug, Clone, Copy, PartialEq, Eq, Structural)]
pub enum Phase {
    /// At the top of a turn.
    Ready,
    /// A generation was asked for; the response is awaited.
    Generating,
    /// A tool was handed out; its result is awaited.
    Executing,
    /// The run is over.
    Finished,
}

/// The end of a run: its status, what the caller gets back, and the last
/// effects to carry out.
#[derive(Debug)]
pub struct Termination {
    pub status: RunStatus,
    pub outcome: Result<String, AiRuntimeError>,
    pub effects: Vec<Effect>,
}

/// What the top of a turn leads to.
#[derive(Debug)]
pub enum TurnStart {
    /// Ask the model with this prompt.
    Generate { prompt: String, effects: Vec<Effect> },
    /// A guardrail stopped the run.
    Stop(Termination),
}

/// What a chunk of the model's stream leads to.
#[derive(Debug)]
pub enum ChunkStep {
    /// Read on.
    More,
    /// The response is complete.
    Complete,
    /// The stream failed with this message.
    Failed(String),
}

/// What a response of the model leads to.
#[derive(Debug)]
pub enum ResponseStep {
    Stop(Termination),
    /// Run this tool, after the effects. `external` says that the call goes
    /// to the registry of external tools.
    RunTool { call: ToolCall, path: Option<String>, external: bool, effects: Vec<Effect> },
    /// The model was told to act; the next turn is due.
    Continue,
}

/// What a tool's result leads to.
#[derive(Debug)]
pub enum ToolStep {
    Stop(Termination),
    /// The result was fed back; the next turn is due.
    Continue { effects: Vec<Effect> },
}

/// What a run makes of a response.
pub enum Decision {
    /// The response is empty: the run ends with an error.
    Empty,
    /// A call, but the limit of calls is reached: the run is aborted.
    ToolCap,
    /// The call of the turn before, again: the run is aborted.
    Repeated,
    /// A call to run.
    RunTool,
    /// No call, and no end: the model is told to act.
    Steer,
    /// The final answer.
    Finish,
}

/// The call `(name, arguments)` repeats the call `last`.
pub open spec fn repeats(last: Option<ToolCall>, name: Seq<char>, arguments: serde_json::Value) -> bool {
    last matches Some(prev) && prev.name@ == name && (prev.arguments == arguments || json_equal(
        prev.arguments,
        arguments,
    ))
}

/// What a run makes of a trimmed response, given the call of the turn
/// before and the number of calls made for the message.
pub open spec fn decide(last: Option<ToolCall>, tool_calls: nat, response: Seq<char>) -> Decision {
    if response.len() == 0 {
        Decision::Empty
    } else {
        match parsed_call(response) {
            Some((name, arguments)) => if tool_calls >= MAX_TOOL_CALLS_PER_MESSAGE {
                Decision::ToolCap
            } else if repeats(last, name, arguments) {
                Decision::Repeated
            } else {
                Decision::RunTool
            },
            None => if needs_steering(response) {
                Decision::Steer
            } else {
                Decision::Finish
            },
        }
    }
}

/// The guardrail that stops a run at the top of a turn, if any: the limit
/// of turns first, then the time, then the tokens.
pub open spec fn turn_guard(turn: nat, max_turns: nat, elapsed_ms: nat, tokens: nat) -> Option<
    (Seq<char>, Seq<char>),
> {
    if turn >= max_turns {
        Some(("guardrail: max_turns"@, MAX_TURNS_MESSAGE@))
    } else if elapsed_ms >= MAX_TIME_MS {
        Some(("guardrail: max_time"@, MAX_TIME_MESSAGE@))
    } else if tokens > MAX_TOKENS_PER_SESSION {
        Some(("guardrail: max_tokens"@, MAX_TOKENS_MESSAGE@))
    } else {
        None
    }
}

/// The effects that end a run: a log line where there is one, the close of
/// the session with the status, and the final message.
pub open spec fn stop_effects(log: Option<Seq<char>>, status: RunStatus, message: Seq<char>) -> Seq<
    EffectView,
> {
    (match log {
        Some(line) => seq![log_of(line)],
        None => Seq::<EffectView>::empty(),
    }) + session_end_of(status.name()) + seq![done_of(message)]
}

/// The effects that announce a tool call.
pub open spec fn call_effects(name: Seq<char>, path: Option<Seq<char>>) -> Seq<EffectView> {
    seq![
        log_of(
            "tool_call "@ + name + " "@ + (match path {
                Some(p) => "path="@ + p,
                None => Seq::<char>::empty(),
            }),
        ),
        EffectView::Audit(AuditEventView::ToolCall { tool: name, path }),
        EffectView::Progress(AgentProgressView::ToolCall { name, path }),
    ]
}

/// The effect that announces the start of a patch.
pub open spec fn patch_start_effects(name: Seq<char>, path: Option<Seq<char>>) -> Seq<EffectView> {
    match path {
        Some(p) => if name == "apply_patch"@ {
            seq![EffectView::Progress(AgentProgressView::PatchApplyStarted { path: p })]
        } else {
            Seq::<EffectView>::empty()
        },
        None => Seq::<EffectView>::empty(),
    }
}

/// The effects that report how a patch went.
pub open spec fn patch_result_effects(
    call: ToolCall,
    path: Option<Seq<char>>,
    success: bool,
    output: Seq<char>,
) -> Seq<EffectView> {
    match path {
        Some(p) => if call.name@ == "apply_patch"@ {
            if success {
                seq![
                    EffectView::Audit(AuditEventView::PatchApplied { path: p, hash: None }),
                    EffectView::Progress(AgentProgressView::PatchApplySuccess { path: p }),
                ] + (match (call.arg_text("before"@), call.arg_text("after"@)) {
                    (Some(before), Some(after)) => seq![
                        EffectView::Progress(
                            AgentProgressView::PatchApplied { path: p, before, after },
                        ),
                    ],
                    _ => Seq::<EffectView>::empty(),
                })
            } else {
                seq![
                    EffectView::Progress(
                        AgentProgressView::PatchApplyError { path: p, message: output },
                    ),
                ]
            }
        } else {
            Seq::<EffectView>::empty()
        },
        None => Seq::<EffectView>::empty(),
    }
}

/// The effects that report a tool's result.
pub open spec fn result_effects(success: bool, output: Seq<char>) -> Seq<EffectView> {
    seq![
        EffectView::Audit(
            AuditEventView::ToolResult { success, output_len: Some(byte_len(output) as usize) },
        ),
        EffectView::Progress(AgentProgressView::ToolResult { success, output }),
    ]
}

/// What the model is told after a successful tool, by the tool's name.
pub open spec fn hint_after(name: Seq<char>, task: Seq<char>) -> Seq<char> {
    if name == "create_project"@ {
        "\n\n[System: Project skeleton created. The user asked: \""@ + task
            + "\". You MUST now implement using create_file or apply_patch. Do NOT stop.]"@
    } else if name == "list_files"@ {
        "\n\n[System: You listed files. The user asked: \""@ + task
            + "\". You MUST now read_file the relevant files and then use create_file or apply_patch to implement. Do NOT stop with just listing.]"@
    } else if name == "read_file"@ {
        "\n\n[System: You have the file content. Now use apply_patch to modify it according to the user's request, or create_file for new files. Do NOT stop.]"@
    } else {
        Seq::<char>::empty()
    }
}

/// What a tool's result adds to the transcript: the model's response, the
/// result, the hint after a success, and the cue for the next answer.
pub open spec fn transcript_after_tool(
    response: Seq<char>,
    name: Seq<char>,
    task: Seq<char>,
    success: bool,
    output: Seq<char>,
) -> Seq<char> {
    response + "\n\nTool result: "@ + (if success {
        "OK. "@
    } else {
        "ERROR. "@
    }) + output + (if success {
        hint_after(name, task)
    } else {
        Seq::<char>::empty()
    }) + "\n\nAssistant: "@
}

/// The effects that end a run close the session exactly once and hold
/// exactly one final message.
pub proof fn law_stop_closes_once(log: Option<Seq<char>>, status: RunStatus, message: Seq<char>)
    ensures
        closes_once(stop_effects(log, status, message), status.name()),
{
    let head = match log {
        Some(line) => seq![log_of(line)],
        None => Seq::<EffectView>::empty(),
    };
    let close = session_end_of(status.name());
    let tail = seq![done_of(message)];
    if log is Some {
        lemma_counts_one(log_of(log->0));
    }
    lemma_counts_session_end(status.name());
    lemma_counts_one(done_of(message));
    lemma_counts_concat(head, close);
    lemma_counts_concat(head + close, tail);
    let all = stop_effects(log, status, message);
    assert(all[head.len() as int] == close[0]);
    assert(all[head.len() as int + 1] == close[1]);
}

/// Whatever is done before the end of a run, the session is closed exactly
/// once, provided nothing before closes it.
pub proof fn law_termination_closes_once(
    before: Seq<EffectView>,
    log: Option<Seq<char>>,
    status: RunStatus,
    message: Seq<char>,
)
    requires
        leaves_open(before),
    ensures
        closes_once(before + stop_effects(log, status, message), status.name()),
{
    law_stop_closes_once(log, status, message);
    let stop = stop_effects(log, status, message);
    lemma_counts_concat(before, stop);
    let close = EffectView::Audit(AuditEventView::SessionEnd { status: status.name() });
    let finish = EffectView::FinishMeta(status.name());
    let i = choose|i: int| 0 <= i < stop.len() && stop[i] == close;
    assert((before + stop)[before.len() + i] == close);
    let j = choose|j: int| 0 <= j < stop.len() && stop[j] == finish;
    assert((before + stop)[before.len() + j] == finish);
}

/// Announcing a tool call neither closes the session nor ends the run.
pub proof fn lemma_call_effects_open(name: Seq<char>, path: Option<Seq<char>>)
    ensures
        leaves_open(call_effects(name, path)),
{
    let e = call_effects(name, path);
    lemma_counts_one(e[0]);
    lemma_counts_one(e[1]);
    lemma_counts_one(e[2]);
    lemma_counts_concat(seq![e[0]], seq![e[1]]);
    lemma_counts_concat(seq![e[0]] + seq![e[1]], seq![e[2]]);
    assert(e =~= seq![e[0]] + seq![e[1]] + seq![e[2]]);
}

/// Reporting how a patch went neither closes the session nor ends the run.
pub proof fn lemma_patch_effects_open(
    call: ToolCall,
    path: Option<Seq<char>>,
    success: bool,
    output: Seq<char>,
)
    ensures
        leaves_open(patch_result_effects(call, path, success, output)),
{
    let e = patch_result_effects(call, path, success, output);
    if e.len() == 1 {
        lemma_counts_one(e[0]);
        assert(e =~= seq![e[0]]);
    } else if e.len() == 2 {
        lemma_counts_one(e[0]);
        lemma_counts_one(e[1]);
        lemma_counts_concat(seq![e[0]], seq![e[1]]);
        assert(e =~= seq![e[0]] + seq![e[1]]);
    } else if e.len() == 3 {
        lemma_counts_one(e[0]);
        lemma_counts_one(e[1]);
        lemma_counts_one(e[2]);
        lemma_counts_concat(seq![e[0]], seq![e[1]]);
        lemma_counts_concat(seq![e[0]] + seq![e[1]], seq![e[2]]);
        assert(e =~= seq![e[0]] + seq![e[1]] + seq![e[2]]);
    } else {
        assert(e.len() == 0);
    }
}

/// The same call in two turns in a row: the second is not run. A response
/// that holds the call that was run the turn before aborts the run, as a
/// repetition or, where that call was the last one allowed, at the limit
/// of calls.
pub proof fn law_same_call_twice_aborts(previous: ToolCall, tool_calls: nat, response: Seq<char>)
    requires
        response.len() > 0,
        denotes(Some(previous), parsed_call(response)),
    ensures
        tool_calls < MAX_TOOL_CALLS_PER_MESSAGE ==> decide(Some(previous), tool_calls, response)
            is Repeated,
        tool_calls >= MAX_TOOL_CALLS_PER_MESSAGE ==> decide(Some(previous), tool_calls, response)
            is ToolCap,
{
}

/// Once the limit of turns is reached, the top of a turn aborts the run
/// with the message of that limit, whatever the time and the tokens.
pub proof fn law_turn_limit_aborts(turn: nat, max_turns: nat, elapsed_ms: nat, tokens: nat)
    requires
        turn >= max_turns,
    ensures
        turn_guard(turn, max_turns, elapsed_ms, tokens) == Some(
            ("guardrail: max_turns"@, MAX_TURNS_MESSAGE@),
        ),
{
}

/// The state of one run.
#[derive(Debug)]
pub struct AgentRun {
    /// Most turns of the run.
    pub max_turns: usize,
    /// The user's message, trimmed.
    pub task: String,
    /// The transcript: the prompt of the next generation.
    pub conversation: String,
    /// Generations asked for so far.
    pub turn: usize,
    /// Tool calls since the user's message or the last demand to act.
    pub tool_calls_in_run: usize,
    /// The call of the turn before.
    pub last_tool_call: Option<ToolCall>,
    /// A quarter of the bytes of all responses so far.
    pub total_tokens_approx: usize,
    /// The messages of the last failures, three at most, oldest first.
    pub last_errors: Vec<String>,
    /// The response that holds the call being run.
    pub pending_response: String,
    /// The path argument of the call being run.
    pub pending_path: Option<String>,
    pub phase: Phase,
}

impl AgentRun {
    /// The run's numbers are within their limits.
    pub open spec fn wf(&self) -> bool {
        &&& self.turn <= self.max_turns
        &&& self.tool_calls_in_run <= MAX_TOOL_CALLS_PER_MESSAGE
        &&& self.last_errors@.len() <= SAME_ERROR_THRESHOLD
        &&& self.phase == Phase::Generating ==> self.total_tokens_approx <= MAX_TOKENS_PER_SESSION
        &&& self.phase == Phase::Generating ==> self.turn >= 1
        &&& self.phase == Phase::Executing ==> self.last_tool_call is Some
    }

    /// Tests whether the run's numbers are within their limits.
    pub fn is_well_formed(&self) -> (r: bool)
        ensures
            r == self.wf(),
    {
        let generating = match self.phase {
            Phase::Generating => true,
            _ => false,
        };
        let executing = match self.phase {
            Phase::Executing => true,
            _ => false,
        };
        self.turn <= self.max_turns && self.tool_calls_in_run <= MAX_TOOL_CALLS_PER_MESSAGE
            && self.last_errors.len() <= SAME_ERROR_THRESHOLD && (!generating || (
        self.total_tokens_approx <= MAX_TOKENS_PER_SESSION && self.turn >= 1)) && (!executing
            || self.last_tool_call.is_some())
    }

    /// The transcript that a run starts with.
    pub open spec fn opening_transcript(
        system_prompt: Seq<char>,
        context_block: Seq<char>,
        user_message: Seq<char>,
    ) -> Seq<char> {
        system_prompt + context_block + "\n\nUser: "@ + trimmed(user_message) + "\n\nAssistant: "@
    }

    /// Starts a run on a message of the user.
    pub fn start(system_prompt: &str, context_block: &str, user_message: &str, max_turns: usize) -> (r:
        AgentRun)
        ensures
            r.wf(),
            r.phase == Phase::Ready,
            r.max_turns == max_turns,
            r.turn == 0,
            r.tool_calls_in_run == 0,
            r.total_tokens_approx == 0,
            r.last_tool_call is None,
            r.last_errors@.len() == 0,
            r.task@ == trimmed(user_message@),
            r.conversation@ == Self::opening_transcript(
                system_prompt@,
                context_block@,
                user_message@,
            ),
    {
        let task = trim_str(user_message);
        let mut conversation = String::from_str(system_prompt);
        conversation.append(context_block);
        conversation.append("\n\nUser: ");
        conversation.append(task.as_str());
        conversation.append("\n\nAssistant: ");
        AgentRun {
            max_turns,
            task,
            conversation,
            turn: 0,
            tool_calls_in_run: 0,
            last_tool_call: None,
            total_tokens_approx: 0,
            last_errors: Vec::new(),
            pending_response: String::new(),
            pending_path: None,
            phase: Phase::Ready,
        }
    }

    /// Ends the run after the effects in `effects`: a log line where there
    /// is one, the close of the session, and the final message.
    fn stop(
        &mut self,
        effects: Vec<Effect>,
        log: Option<&str>,
        status: RunStatus,
        message: &str,
        result: String,
    ) -> (t: Termination)
        requires
            leaves_open(effects_view(effects@)),
        ensures
            t.status == status,
            t.outcome matches Ok(s) && s == result,
            effects_view(t.effects@) == effects_view(effects@) + stop_effects(
                opt_text(log),
                status,
                message@,
            ),
            closes_once(effects_view(t.effects@), status.name()),
            *final(self) == (AgentRun { phase: Phase::Finished, ..*old(self) }),
    {
        proof {
            law_termination_closes_once(
                effects_view(effects@),
                opt_text(log),
                status,
                message@,
            );
        }
        let mut effects = effects;
        let ghost before = effects_view(effects@);
        match log {
            Some(line) => {
                push_log(&mut effects, line);
            },
            None => {},
        }
        emit_session_end(&mut effects, status.as_str());
        push_done(&mut effects, message);
        self.phase = Phase::Finished;
        proof {
            assert(effects_view(effects@) =~= before + stop_effects(
                opt_text(log),
                status,
                message@,
            ));
        }
        Termination { status, outcome: Ok(result), effects }
    }

    /// The top of a turn. The guardrails are checked in order: the limit of
    /// turns, the time, the tokens. Any of them aborts the run, and then no
    /// generation is asked for. Otherwise the turn is counted and the
    /// transcript goes to the model.
    pub fn begin_turn(&mut self, elapsed_ms: u64) -> (r: TurnStart)
        requires
            old(self).wf(),
            old(self).phase == Phase::Ready,
        ensures
            final(self).wf(),
            r matches TurnStart::Stop(t) ==> closes_once(effects_view(t.effects@), t.status.name()),
            match turn_guard(
                old(self).turn as nat,
                old(self).max_turns as nat,
                elapsed_ms as nat,
                old(self).total_tokens_approx as nat,
            ) {
                Some((log, message)) => {
                    &&& r matches TurnStart::Stop(t)
                    &&& t.status == RunStatus::Aborted
                    &&& (t.outcome matches Ok(s) && s@.len() == 0)
                    &&& effects_view(t.effects@) == stop_effects(
                        Some(log),
                        RunStatus::Aborted,
                        message,
                    )
                    &&& *final(self) == (AgentRun { phase: Phase::Finished, ..*old(self) })
                },
                None => {
                    &&& r matches TurnStart::Generate { prompt, effects }
                    &&& prompt@ == old(self).conversation@
                    &&& effects_view(effects@) == seq![
                        EffectView::Progress(AgentProgressView::Thinking),
                        EffectView::Audit(
                            AuditEventView::PromptSent {
                                tokens: Some(
                                    approx_tokens(byte_len(old(self).conversation@)) as usize,
                                ),
                            },
                        ),
                    ]
                    &&& *final(self) == (AgentRun {
                        phase: Phase::Generating,
                        turn: (old(self).turn + 1) as usize,
                        ..*old(self)
                    })
                },
            },
    {
        if self.turn >= self.max_turns {
            return TurnStart::Stop(
                self.stop(
                    Vec::new(),
                    Some("guardrail: max_turns"),
                    RunStatus::Aborted,
                    MAX_TURNS_MESSAGE,
                    String::new(),
                ),
            );
        }
        if elapsed_ms >= MAX_TIME_MS {
            return TurnStart::Stop(
                self.stop(
                    Vec::new(),
                    Some("guardrail: max_time"),
                    RunStatus::Aborted,
                    MAX_TIME_MESSAGE,
                    String::new(),
                ),
            );
        }
        if self.total_tokens_approx > MAX_TOKENS_PER_SESSION {
            return TurnStart::Stop(
                self.stop(
                    Vec::new(),
                    Some("guardrail: max_tokens"),
                    RunStatus::Aborted,
                    MAX_TOKENS_MESSAGE,
                    String::new(),
                ),
            );
        }
        self.turn = self.turn + 1;
        self.phase = Phase::Generating;
        let mut effects: Vec<Effect> = Vec::new();
        push_progress(&mut effects, AgentProgress::Thinking);
        push_audit(
            &mut effects,
            AuditEvent::PromptSent { tokens: Some(byte_length(self.conversation.as_str()) / 4) },
        );
        TurnStart::Generate { prompt: self.conversation.clone(), effects }
    }

    /// The text recorded for a failed generation.
    pub open spec fn failure_detail(error: ProviderError) -> Seq<char> {
        match error {
            ProviderError::Unavailable(detail) => detail@,
            ProviderError::Generation(detail) => detail@,
        }
    }

    /// The effects of a failed generation: the session is closed with the
    /// status `error`, the failure is recorded, and the user is told.
    pub open spec fn failure_effects(error: ProviderError) -> Seq<EffectView> {
        session_end_of(RunStatus::Error.name()) + seq![
            EffectView::Audit(AuditEventView::Error { message: Self::failure_detail(error) }),
            done_of("Error: "@ + AiRuntimeError::Provider(error).message_text()),
        ]
    }

    /// The generation failed, before its stream started or within it. The
    /// run ends with the status `error`, and the caller gets the error.
    pub fn fail_generation(&mut self, error: ProviderError) -> (t: Termination)
        requires
            old(self).phase == Phase::Generating,
        ensures
            t.status == RunStatus::Error,
            t.outcome matches Err(AiRuntimeError::Provider(e)) && e == error,
            effects_view(t.effects@) == Self::failure_effects(error),
            closes_once(effects_view(t.effects@), t.status.name()),
            *final(self) == (AgentRun { phase: Phase::Finished, ..*old(self) }),
    {
        let mut effects: Vec<Effect> = Vec::new();
        emit_session_end(&mut effects, RunStatus::Error.as_str());
        let detail = match &error {
            ProviderError::Unavailable(detail) => detail.clone(),
            ProviderError::Generation(detail) => detail.clone(),
        };
        push_audit(&mut effects, AuditEvent::Error { message: detail });
        let failure = AiRuntimeError::Provider(error);
        let mut message = String::from_str("Error: ");
        let text = failure.message();
        message.append(text.as_str());
        push_done(&mut effects, message.as_str());
        self.phase = Phase::Finished;
        proof {
            assert(effects_view(effects@) =~= Self::failure_effects(error));
            let record = EffectView::Audit(
                AuditEventView::Error { message: Self::failure_detail(error) },
            );
            let last = done_of("Error: "@ + AiRuntimeError::Provider(error).message_text());
            let close = session_end_of(RunStatus::Error.name());
            lemma_counts_session_end(RunStatus::Error.name());
            lemma_counts_one(record);
            lemma_counts_one(last);
            lemma_counts_concat(close, seq![record]);
            lemma_counts_concat(close + seq![record], seq![last]);
            assert(Self::failure_effects(error) =~= close + seq![record] + seq![last]);
            assert(Self::failure_effects(error)[0] == close[0]);
            assert(Self::failure_effects(error)[1] == close[1]);
        }
        Termination { status: RunStatus::Error, outcome: Err(failure), effects }
    }

    /// A response of the model. It is trimmed and counted. An empty
    /// response ends the run with an error. A response that holds a tool
    /// call hands the call out, unless the limit of calls is reached or the
    /// call repeats the one before: both abort the run, and the tool is not
    /// run. A response without a call is the final answer, unless it is
    /// long and does not look like one: then the model is told to act.
    pub fn on_response(&mut self, raw: &str) -> (r: ResponseStep)
        requires
            old(self).wf(),
            old(self).phase == Phase::Generating,
        ensures
            final(self).wf(),
            final(self).max_turns == old(self).max_turns,
            final(self).turn == old(self).turn,
            final(self).task == old(self).task,
            final(self).last_errors == old(self).last_errors,
            final(self).total_tokens_approx == old(self).total_tokens_approx + approx_tokens(
                byte_len(trimmed(raw@)),
            ),
            r matches ResponseStep::Stop(t) ==> closes_once(
                effects_view(t.effects@),
                t.status.name(),
            ),
            !(r is Continue) ==> final(self).conversation == old(self).conversation,
            r is Stop ==> final(self).phase == Phase::Finished,
            ({
                let response = trimmed(raw@);
                let calls = old(self).tool_calls_in_run;
                match decide(old(self).last_tool_call, calls as nat, response) {
                    Decision::Empty => {
                        &&& r matches ResponseStep::Stop(t)
                        &&& t.status == RunStatus::Error
                        &&& (t.outcome matches Ok(s) && s@.len() == 0)
                        &&& effects_view(t.effects@) == stop_effects(
                            Some("guardrail: empty_response"@),
                            RunStatus::Error,
                            EMPTY_RESPONSE_MESSAGE@,
                        )
                        &&& final(self).phase == Phase::Finished
                    },
                    Decision::ToolCap => {
                        &&& r matches ResponseStep::Stop(t)
                        &&& t.status == RunStatus::Aborted
                        &&& (t.outcome matches Ok(s) && s@.len() == 0)
                        &&& effects_view(t.effects@) == stop_effects(
                            None,
                            RunStatus::Aborted,
                            TOOL_CAP_MESSAGE@,
                        )
                        &&& final(self).phase == Phase::Finished
                    },
                    Decision::Repeated => {
                        &&& r matches ResponseStep::Stop(t)
                        &&& t.status == RunStatus::Aborted
                        &&& (t.outcome matches Ok(s) && s@.len() == 0)
                        &&& denotes(final(self).last_tool_call, parsed_call(response))
                        &&& effects_view(t.effects@) == call_effects(
                            final(self).last_tool_call->0.name@,
                            final(self).last_tool_call->0.arg_text("path"@),
                        ) + stop_effects(
                            Some("guardrail: repeated_tool_call"@),
                            RunStatus::Aborted,
                            REPEATED_CALL_MESSAGE@,
                        )
                        &&& final(self).phase == Phase::Finished
                    },
                    Decision::RunTool => {
                        &&& r matches ResponseStep::RunTool { call, path, external, effects }
                        &&& denotes(Some(call), parsed_call(response))
                        &&& opt_view(path) == call.arg_text("path"@)
                        &&& external == has_prefix(call.name@, "mcp::"@)
                        &&& effects_view(effects@) == call_effects(call.name@, opt_view(path)) + (
                        if external {
                            Seq::<EffectView>::empty()
                        } else {
                            patch_start_effects(call.name@, opt_view(path))
                        })
                        &&& final(self).last_tool_call == Some(call)
                        &&& final(self).tool_calls_in_run == calls + 1
                        &&& final(self).pending_response@ == response
                        &&& opt_view(final(self).pending_path) == opt_view(path)
                        &&& final(self).conversation == old(self).conversation
                        &&& final(self).phase == Phase::Executing
                    },
                    Decision::Steer => {
                        &&& r is Continue
                        &&& final(self).conversation@ == old(self).conversation@ + response
                            + STEERING_NOTE@
                        &&& final(self).tool_calls_in_run == 0
                        &&& final(self).last_tool_call == old(self).last_tool_call
                        &&& final(self).phase == Phase::Ready
                    },
                    Decision::Finish => {
                        &&& r matches ResponseStep::Stop(t)
                        &&& t.status == RunStatus::Done
                        &&& (t.outcome matches Ok(s) && s@ == response)
                        &&& effects_view(t.effects@) == stop_effects(
                            Some("done msg_len="@ + decimal(byte_len(response))),
                            RunStatus::Done,
                            response,
                        )
                        &&& final(self).phase == Phase::Finished
                    },
                }
            }),
    {
        let response = trim_str(raw);
        self.total_tokens_approx = self.total_tokens_approx + byte_length(response.as_str()) / 4;
        if chars_of(response.as_str()).len() == 0 {
            return ResponseStep::Stop(
                self.stop(
                    Vec::new(),
                    Some("guardrail: empty_response"),
                    RunStatus::Error,
                    EMPTY_RESPONSE_MESSAGE,
                    String::new(),
                ),
            );
        }
        match parse_tool_call(response.as_str()) {
            Some(call) => {
                if self.tool_calls_in_run >= MAX_TOOL_CALLS_PER_MESSAGE {
                    return ResponseStep::Stop(
                        self.stop(
                            Vec::new(),
                            None,
                            RunStatus::Aborted,
                            TOOL_CAP_MESSAGE,
                            String::new(),
                        ),
                    );
                }
                self.tool_calls_in_run = self.tool_calls_in_run + 1;
                let path = call.arg_str("path");
                let mut effects: Vec<Effect> = Vec::new();
                let mut line = String::from_str("tool_call ");
                line.append(call.name.as_str());
                line.append(" ");
                match &path {
                    Some(p) => {
                        line.append("path=");
                        line.append(p.as_str());
                    },
                    None => {},
                }
                proof {
                    let head = "tool_call "@ + call.name@ + " "@;
                    if path is Some {
                        assert(line@ =~= head + ("path="@ + path->0@));
                    } else {
                        assert(line@ =~= head + Seq::<char>::empty());
                    }
                }
                push_log(&mut effects, line.as_str());
                push_audit(
                    &mut effects,
                    AuditEvent::ToolCall { tool: call.name.clone(), path: clone_opt(&path) },
                );
                push_progress(
                    &mut effects,
                    AgentProgress::ToolCall { name: call.name.clone(), path: clone_opt(&path) },
                );
                proof {
                    assert(effects_view(effects@) =~= call_effects(call.name@, opt_view(path)));
                    lemma_call_effects_open(call.name@, opt_view(path));
                }
                let is_repeat = match &self.last_tool_call {
                    Some(prev) => prev.same(&call),
                    None => false,
                };
                self.last_tool_call = Some(call.duplicate());
                if is_repeat {
                    return ResponseStep::Stop(
                        self.stop(
                            effects,
                            Some("guardrail: repeated_tool_call"),
                            RunStatus::Aborted,
                            REPEATED_CALL_MESSAGE,
                            String::new(),
                        ),
                    );
                }
                let external = starts_with(&chars_of(call.name.as_str()), &chars_of("mcp::"));
                if !external && same_text(call.name.as_str(), "apply_patch") {
                    match &path {
                        Some(p) => {
                            push_progress(
                                &mut effects,
                                AgentProgress::PatchApplyStarted { path: p.clone() },
                            );
                        },
                        None => {},
                    }
                }
                proof {
                    assert(effects_view(effects@) =~= call_effects(call.name@, opt_view(path)) + (
                    if external {
                        Seq::<EffectView>::empty()
                    } else {
                        patch_start_effects(call.name@, opt_view(path))
                    }));
                }
                self.pending_response = response;
                self.pending_path = clone_opt(&path);
                self.phase = Phase::Executing;
                ResponseStep::RunTool { call, path, external, effects }
            },
            None => {
                if must_steer(response.as_str()) {
                    self.conversation.append(response.as_str());
                    self.conversation.append(STEERING_NOTE);
                    self.tool_calls_in_run = 0;
                    self.phase = Phase::Ready;
                    return ResponseStep::Continue;
                }
                let mut line = String::from_str("done msg_len=");
                let digits = decimal_string(byte_length(response.as_str()) as u128);
                line.append(digits.as_str());
                let message = response.clone();
                ResponseStep::Stop(
                    self.stop(
                        Vec::new(),
                        Some(line.as_str()),
                        RunStatus::Done,
                        message.as_str(),
                        response,
                    ),
                )
            },
        }
    }

    /// The transcript and the errors held after a tool's result.
    pub open spec fn after_tool(&self, success: bool, output: Seq<char>) -> (Seq<char>, Seq<Seq<char>>) {
        (
            self.conversation@ + transcript_after_tool(
                self.pending_response@,
                self.last_tool_call->0.name@,
                self.task@,
                success,
                output,
            ),
            if success {
                Seq::<Seq<char>>::empty()
            } else {
                ring_push(texts(self.last_errors@), output)
            },
        )
    }

    /// The result of the tool that was handed out. A failure is kept among
    /// the last errors, and a success clears them. Three identical errors
    /// in a row abort the run. Otherwise the result goes into the
    /// transcript, with a hint after a success, and the next turn is due.
    pub fn on_tool_result(&mut self, success: bool, output: String) -> (r: ToolStep)
        requires
            old(self).wf(),
            old(self).phase == Phase::Executing,
        ensures
            final(self).wf(),
            final(self).max_turns == old(self).max_turns,
            final(self).turn == old(self).turn,
            final(self).task == old(self).task,
            final(self).tool_calls_in_run == old(self).tool_calls_in_run,
            final(self).last_tool_call == old(self).last_tool_call,
            final(self).total_tokens_approx == old(self).total_tokens_approx,
            texts(final(self).last_errors@) == old(self).after_tool(success, output@).1,
            r matches ToolStep::Stop(t) ==> closes_once(effects_view(t.effects@), t.status.name()),
            ({
                let call = old(self).last_tool_call->0;
                let patch = patch_result_effects(
                    call,
                    opt_view(old(self).pending_path),
                    success,
                    output@,
                );
                if !success && ring_stuck(old(self).after_tool(success, output@).1) {
                    &&& r matches ToolStep::Stop(t)
                    &&& t.status == RunStatus::Aborted
                    &&& (t.outcome matches Ok(s) && s@.len() == 0)
                    &&& effects_view(t.effects@) == patch + stop_effects(
                        Some("guardrail: repeated_errors"@),
                        RunStatus::Aborted,
                        REPEATED_ERRORS_MESSAGE@,
                    )
                    &&& final(self).conversation == old(self).conversation
                    &&& final(self).phase == Phase::Finished
                } else {
                    &&& r matches ToolStep::Continue { effects }
                    &&& effects_view(effects@) == patch + result_effects(success, output@)
                    &&& final(self).conversation@ == old(self).after_tool(success, output@).0
                    &&& final(self).phase == Phase::Ready
                }
            }),
    {
        let mut effects = self.report_patch(success, output.as_str());
        if !success {
            let stuck = record_failure(&mut self.last_errors, output.clone());
            if stuck {
                return ToolStep::Stop(
                    self.stop(
                        effects,
                        Some("guardrail: repeated_errors"),
                        RunStatus::Aborted,
                        REPEATED_ERRORS_MESSAGE,
                        String::new(),
                    ),
                );
            }
        } else {
            self.last_errors.clear();
            proof {
                assert(texts(self.last_errors@) =~= Seq::<Seq<char>>::empty());
            }
        }
        let ghost patch = effects_view(effects@);
        push_audit(
            &mut effects,
            AuditEvent::ToolResult { success, output_len: Some(byte_length(output.as_str())) },
        );
        push_progress(&mut effects, AgentProgress::ToolResult { success, output: output.clone() });
        proof {
            assert(effects_view(effects@) =~= patch + result_effects(success, output@));
        }
        self.feed_back(success, output.as_str());
        self.phase = Phase::Ready;
        ToolStep::Continue { effects }
    }

    /// The effects that report how the patch that was handed out went;
    /// none for any other tool.
    fn report_patch(&self, success: bool, output: &str) -> (effects: Vec<Effect>)
        requires
            self.last_tool_call is Some,
        ensures
            effects_view(effects@) == patch_result_effects(
                self.last_tool_call->0,
                opt_view(self.pending_path),
                success,
                output@,
            ),
            leaves_open(effects_view(effects@)),
    {
        let mut effects: Vec<Effect> = Vec::new();
        proof {
            lemma_patch_effects_open(
                self.last_tool_call->0,
                opt_view(self.pending_path),
                success,
                output@,
            );
        }
        let call = match &self.last_tool_call {
            Some(call) => call,
            None => {
                return effects;
            },
        };
        let p = match &self.pending_path {
            Some(p) => p,
            None => {
                proof {
                    assert(effects_view(effects@) =~= Seq::<EffectView>::empty());
                }
                return effects;
            },
        };
        if !same_text(call.name.as_str(), "apply_patch") {
            proof {
                assert(effects_view(effects@) =~= Seq::<EffectView>::empty());
            }
            return effects;
        }
        if !success {
            push_progress(
                &mut effects,
                AgentProgress::PatchApplyError {
                    path: p.clone(),
                    message: String::from_str(output),
                },
            );
            proof {
                assert(effects_view(effects@) =~= patch_result_effects(
                    *call,
                    opt_view(self.pending_path),
                    success,
                    output@,
                ));
            }
            return effects;
        }
        push_audit(&mut effects, AuditEvent::PatchApplied { path: p.clone(), hash: None });
        push_progress(&mut effects, AgentProgress::PatchApplySuccess { path: p.clone() });
        match (call.arg_str("before"), call.arg_str("after")) {
            (Some(before), Some(after)) => {
                push_progress(
                    &mut effects,
                    AgentProgress::PatchApplied { path: p.clone(), before, after },
                );
            },
            _ => {},
        }
        proof {
            assert(effects_view(effects@) =~= patch_result_effects(
                *call,
                opt_view(self.pending_path),
                success,
                output@,
            ));
        }
        effects
    }

    /// Appends the hint that follows a successful tool.
    fn append_hint(&mut self)
        requires
            old(self).last_tool_call is Some,
        ensures
            final(self).conversation@ == old(self).conversation@ + hint_after(
                old(self).last_tool_call->0.name@,
                old(self).task@,
            ),
            *final(self) == (AgentRun { conversation: final(self).conversation, ..*old(self) }),
    {
        let ghost base = self.conversation@;
        match &self.last_tool_call {
            Some(call) => {
                if same_text(call.name.as_str(), "create_project") {
                    self.conversation.append(
                        "\n\n[System: Project skeleton created. The user asked: \"",
                    );
                    self.conversation.append(self.task.as_str());
                    self.conversation.append(
                        "\". You MUST now implement using create_file or apply_patch. Do NOT stop.]",
                    );
                } else if same_text(call.name.as_str(), "list_files") {
                    self.conversation.append(
                        "\n\n[System: You listed files. The user asked: \"",
                    );
                    self.conversation.append(self.task.as_str());
                    self.conversation.append(
                        "\". You MUST now read_file the relevant files and then use create_file or apply_patch to implement. Do NOT stop with just listing.]",
                    );
                } else if same_text(call.name.as_str(), "read_file") {
                    self.conversation.append(
                        "\n\n[System: You have the file content. Now use apply_patch to modify it according to the user's request, or create_file for new files. Do NOT stop.]",
                    );
                }
            },
            None => {},
        }
        proof {
            assert(self.conversation@ =~= base + hint_after(
                old(self).last_tool_call->0.name@,
                old(self).task@,
            ));
        }
    }

    /// Feeds a tool's result back into the transcript.
    fn feed_back(&mut self, success: bool, output: &str)
        requires
            old(self).last_tool_call is Some,
        ensures
            final(self).conversation@ == old(self).conversation@ + transcript_after_tool(
                old(self).pending_response@,
                old(self).last_tool_call->0.name@,
                old(self).task@,
                success,
                output@,
            ),
            *final(self) == (AgentRun { conversation: final(self).conversation, ..*old(self) }),
    {
        let ghost base = self.conversation@;
        self.conversation.append(self.pending_response.as_str());
        self.conversation.append("\n\nTool result: ");
        self.conversation.append(if success { "OK. " } else { "ERROR. " });
        self.conversation.append(output);
        if success {
            self.append_hint();
        }
        self.conversation.append("\n\nAssistant: ");
        proof {
            assert(self.conversation@ =~= base + transcript_after_tool(
                old(self).pending_response@,
                old(self).last_tool_call->0.name@,
                old(self).task@,
                success,
                output@,
            ));
        }
    }
}

/// The effects that open a session, in order: the start of the session
/// in the audit trail, the summary with the status `running`, the role and
/// the model in the audit trail, the same for the user interface, and two
/// lines for the log.
pub open spec fn opening_effects_of(
    session_id: Seq<char>,
    user_message: Seq<char>,
    role: TaskRole,
    model_id: Seq<char>,
    provider_id: Seq<char>,
    environment: AuditEnvironment,
    started_at: Seq<char>,
) -> Seq<EffectView> {
    let task = trimmed(user_message);
    seq![
        EffectView::Audit(
            AuditEventView::SessionStart {
                session_id,
                mode: "agent"@,
                task,
                policy: "default"@,
                environment: Some(environment@),
            },
        ),
        EffectView::SaveMeta(
            AuditSessionMetaView {
                session_id,
                started_at,
                ended_at: None,
                mode: "agent"@,
                task,
                status: "running"@,
                policy: "default"@,
                environment: Some(environment@),
            },
        ),
        EffectView::Audit(
            AuditEventView::TaskClassified {
                role: role.name(),
                reason: "TaskClassifier (rule-based)"@,
            },
        ),
        EffectView::Audit(
            AuditEventView::ModelSelected {
                role: role.name(),
                model: model_id,
                provider: provider_id,
            },
        ),
        EffectView::Progress(AgentProgressView::SessionStarted { session_id }),
        EffectView::Progress(AgentProgressView::ModelSelected { role: role.name(), model_id }),
        log_of("agent_start role="@ + role.name() + " model="@ + model_id),
        log_of("agent_start user_msg_len="@ + decimal(byte_len(user_message))),
    ]
}

fn copy_environment(environment: &AuditEnvironment) -> (r: AuditEnvironment)
    ensures
        r@ == environment@,
{
    AuditEnvironment {
        os: environment.os.clone(),
        arch: environment.arch.clone(),
        offline: environment.offline,
    }
}

/// The effects that open a session. The session's id is made by the
/// caller, once, before the first generation.
pub fn opening_effects(
    session_id: &str,
    user_message: &str,
    role: TaskRole,
    model_id: &str,
    provider_id: &str,
    environment: &AuditEnvironment,
    started_at: &str,
) -> (effects: Vec<Effect>)
    ensures
        effects_view(effects@) == opening_effects_of(
            session_id@,
            user_message@,
            role,
            model_id@,
            provider_id@,
            *environment,
            started_at@,
        ),
{
    let task = trim_str(user_message);
    let mut effects: Vec<Effect> = Vec::new();
    push_audit(
        &mut effects,
        AuditEvent::SessionStart {
            session_id: String::from_str(session_id),
            mode: String::from_str("agent"),
            task: task.clone(),
            policy: String::from_str("default"),
            environment: Some(copy_environment(environment)),
        },
    );
    let meta = AuditSessionMeta {
        session_id: String::from_str(session_id),
        started_at: String::from_str(started_at),
        ended_at: None,
        mode: String::from_str("agent"),
        task,
        status: String::from_str("running"),
        policy: String::from_str("default"),
        environment: Some(copy_environment(environment)),
    };
    let ghost first = effects_view(effects@);
    let ghost summary = meta@;
    effects.push(Effect::SaveMeta(meta));
    proof {
        assert(effects_view(effects@) =~= first.push(EffectView::SaveMeta(summary)));
    }
    push_audit(
        &mut effects,
        AuditEvent::TaskClassified {
            role: String::from_str(role.as_str()),
            reason: String::from_str("TaskClassifier (rule-based)"),
        },
    );
    push_audit(
        &mut effects,
        AuditEvent::ModelSelected {
            role: String::from_str(role.as_str()),
            model: String::from_str(model_id),
            provider: String::from_str(provider_id),
        },
    );
    push_progress(
        &mut effects,
        AgentProgress::SessionStarted { session_id: String::from_str(session_id) },
    );
    push_progress(
        &mut effects,
        AgentProgress::ModelSelected {
            role: String::from_str(role.as_str()),
            model_id: String::from_str(model_id),
        },
    );
    let mut line = String::from_str("agent_start role=");
    line.append(role.as_str());
    line.append(" model=");
    line.append(model_id);
    push_log(&mut effects, line.as_str());
    let mut count = String::from_str("agent_start user_msg_len=");
    let digits = decimal_string(byte_length(user_message) as u128);
    count.append(digits.as_str());
    push_log(&mut effects, count.as_str());
    proof {
        assert(effects_view(effects@) =~= opening_effects_of(
            session_id@,
            user_message@,
            role,
            model_id@,
            provider_id@,
            *environment,
            started_at@,
        ));
    }
    effects
}

/// The final message for a run that could not be carried out.
pub fn failure_notice(error: &AiRuntimeError) -> (r: AgentProgress)
    ensures
        r@ == (AgentProgressView::Done { message: "Error: "@ + error.message_text() }),
{
    let mut message = String::from_str("Error: ");
    let text = error.message();
    message.append(text.as_str());
    AgentProgress::Done { message }
}

/// Takes one chunk of the model's stream into the response read so far. A
/// token is appended; the end completes the response; an error fails it.
pub fn absorb_chunk(response: &mut String, chunk: &AiChunk) -> (r: ChunkStep)
    ensures
        match chunk {
            AiChunk::Start => r is More && final(response)@ == old(response)@,
            AiChunk::Token { value } => r is More && final(response)@ == old(response)@ + value@,
            AiChunk::End => r is Complete && final(response)@ == old(response)@,
            AiChunk::Error { error } => (r matches ChunkStep::Failed(message) && message@
                == error@) && final(response)@ == old(response)@,
        },
{
    match chunk {
        AiChunk::Start => ChunkStep::More,
        AiChunk::Token { value } => {
            response.append(value.as_str());
            ChunkStep::More
        },
        AiChunk::End => ChunkStep::Complete,
        AiChunk::Error { error } => ChunkStep::Failed(error.clone()),
    }
}

} // verus!
