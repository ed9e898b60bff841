//! The registry of providers of a running system, and what a request
//! means to a model: its mode, its input, and the editor's context.

use crate::context::ContextLimits;
use crate::orchestration::TaskRole;
use crate::paths::{path_text, path_to_text};
use crate::providers::{AiChunk, AiMode, AiResponse, EditorContext};
use crate::router::AiRequest;
use crate::selector::ProviderInfo;
use crate::text::{byte_length, lemma_no_bytes_no_chars, opt_text, opt_view};
use std::path::PathBuf;
use vstd::prelude::*;
use vstd::string::StringExecFns;

verus! {

/// Whether answers are streamed.
#[derive(Debug, Clone)]
pub struct StreamingConfig {
    pub enabled: bool,
}

impl Default for StreamingConfig {
    fn default() -> (r: StreamingConfig)
        ensures
            !r.enabled,
    {
        StreamingConfig { enabled: false }
    }
}

/// Whether tools are offered.
#[derive(Debug, Clone)]
pub struct ToolsConfig {
    pub enabled: bool,
}

impl Default for ToolsConfig {
    fn default() -> (r: ToolsConfig)
        ensures
            !r.enabled,
    {
        ToolsConfig { enabled: false }
    }
}

/// What a started stream is known by.
#[derive(Debug, Clone)]
pub struct RunStreamResult {
    pub request_id: String,
    pub role: TaskRole,
    pub model_id: String,
}

/// The providers of a running system, the one that is preferred, and the
/// limits of a context.
#[derive(Debug)]
pub struct AiRuntime {
    pub providers: Vec<ProviderInfo>,
    pub preferred_provider_id: Option<String>,
    pub context_limits: ContextLimits,
}

impl AiRuntime {
    pub fn new() -> (r: AiRuntime)
        ensures
            r.providers@.len() == 0,
            r.preferred_provider_id is None,
            r.context_limits.max_chars == 100_000,
            r.context_limits.max_files == 50,
    {
        AiRuntime {
            providers: Vec::new(),
            preferred_provider_id: None,
            context_limits: ContextLimits { max_chars: 100_000, max_files: 50 },
        }
    }

    /// Adds a provider after those held.
    pub fn add_provider(&mut self, provider: ProviderInfo)
        ensures
            final(self).providers@ == old(self).providers@.push(provider),
            final(self).preferred_provider_id == old(self).preferred_provider_id,
            final(self).context_limits == old(self).context_limits,
    {
        self.providers.push(provider);
    }

    pub fn set_preferred_provider(&mut self, id: Option<String>)
        ensures
            final(self).preferred_provider_id == id,
            final(self).providers == old(self).providers,
            final(self).context_limits == old(self).context_limits,
    {
        self.preferred_provider_id = id;
    }

    pub fn preferred_provider_id(&self) -> (r: Option<&str>)
        ensures
            opt_text(r) == opt_view(self.preferred_provider_id),
    {
        match &self.preferred_provider_id {
            Some(id) => Some(id.as_str()),
            None => None,
        }
    }

    pub fn providers(&self) -> (r: &Vec<ProviderInfo>)
        ensures
            r == &self.providers,
    {
        &self.providers
    }

    pub fn context_limits(&self) -> (r: &ContextLimits)
        ensures
            r == &self.context_limits,
    {
        &self.context_limits
    }
}

/// The mode of a request.
pub open spec fn mode_of(request: AiRequest) -> AiMode {
    match request {
        AiRequest::Chat { .. } => AiMode::Chat,
        AiRequest::Explain { .. } => AiMode::Explain,
        AiRequest::Refactor { .. } => AiMode::Refactor,
        AiRequest::Generate { .. } => AiMode::Generate,
        AiRequest::Agent { .. } => AiMode::Agent,
    }
}

/// What a request asks the model.
pub open spec fn input_of(request: AiRequest) -> Seq<char> {
    match request {
        AiRequest::Chat { message } => message@,
        AiRequest::Explain { selection, .. } => match selection {
            Some(text) => text@,
            None => "Explain this code"@,
        },
        AiRequest::Refactor { instruction, .. } => instruction@,
        AiRequest::Generate { prompt, .. } => prompt@,
        AiRequest::Agent { message } => message@,
    }
}

/// The mode of a request and what it asks the model.
pub fn extract_mode_and_input(request: &AiRequest) -> (r: (AiMode, String))
    ensures
        r.0 == mode_of(*request),
        r.1@ == input_of(*request),
{
    match request {
        AiRequest::Chat { message } => (AiMode::Chat, message.clone()),
        AiRequest::Explain { selection, .. } => {
            let input = match selection {
                Some(text) => text.clone(),
                None => String::from_str("Explain this code"),
            };
            (AiMode::Explain, input)
        },
        AiRequest::Refactor { instruction, .. } => (AiMode::Refactor, instruction.clone()),
        AiRequest::Generate { prompt, .. } => (AiMode::Generate, prompt.clone()),
        AiRequest::Agent { message } => (AiMode::Agent, message.clone()),
    }
}

/// The path that a request names.
pub open spec fn path_of_request(request: AiRequest) -> Option<Seq<char>> {
    match request {
        AiRequest::Chat { .. } => None,
        AiRequest::Agent { .. } => None,
        AiRequest::Explain { path, .. } => Some(path@),
        AiRequest::Refactor { path, .. } => Some(path@),
        AiRequest::Generate { path, .. } => Some(path@),
    }
}

/// The editor's context of a request. A request on a file carries the
/// file that is open, with its content, or else the path that the request
/// names; a chat and an agent task carry neither. The selection is carried
/// in any case.
pub fn editor_context_from_request(
    request: &AiRequest,
    current_file: Option<&(PathBuf, String)>,
    selection: Option<&str>,
) -> (r: EditorContext)
    ensures
        opt_view(r.selection) == opt_text(selection),
        match path_of_request(*request) {
            None => r.path is None && r.content is None,
            Some(named) => match current_file {
                Some(file) => opt_view(r.path) == Some(path_text(file.0)) && opt_view(r.content)
                    == Some(file.1@),
                None => opt_view(r.path) == Some(named) && r.content is None,
            },
        },
{
    let named: Option<String> = match request {
        AiRequest::Chat { .. } => None,
        AiRequest::Agent { .. } => None,
        AiRequest::Explain { path, .. } => Some(path.clone()),
        AiRequest::Refactor { path, .. } => Some(path.clone()),
        AiRequest::Generate { path, .. } => Some(path.clone()),
    };
    let (path, content) = match named {
        None => (None, None),
        Some(name) => match current_file {
            Some(file) => (Some(path_to_text(&file.0)), Some(file.1.clone())),
            None => (Some(name), None),
        },
    };
    let selection = match selection {
        Some(text) => Some(String::from_str(text)),
        None => None,
    };
    EditorContext { path, content, selection }
}

/// The text gathered from the chunks up to the first end or error, and
/// whether the end was met; the message of the first error, if it comes first.
pub open spec fn gathered(chunks: Seq<AiChunk>, i: int, so_far: Seq<char>) -> Result<
    (Seq<char>, bool),
    Seq<char>,
>
    decreases chunks.len() - i,
{
    if i < 0 || i >= chunks.len() {
        Ok((so_far, false))
    } else {
        match chunks[i] {
            AiChunk::Start => gathered(chunks, i + 1, so_far),
            AiChunk::Token { value } => gathered(chunks, i + 1, so_far + value@),
            AiChunk::End => Ok((so_far, true)),
            AiChunk::Error { error } => Err(error@),
        }
    }
}

/// The content of an answer gathered from chunks: the text of the tokens;
/// `(no response)` where the stream ran out without an end and without text.
pub open spec fn answer_content(text: Seq<char>, ended: bool) -> Seq<char> {
    if !ended && text.len() == 0 {
        "(no response)"@
    } else {
        text
    }
}

/// Gathers a whole answer from the chunks of a stream. The tokens up to
/// the end make the content; an error chunk fails the answer with its
/// message.
pub fn collect_response(chunks: &Vec<AiChunk>, model: &str) -> (r: Result<AiResponse, String>)
    ensures
        match gathered(chunks@, 0, Seq::<char>::empty()) {
            Ok((text, ended)) => {
                &&& r matches Ok(answer)
                &&& answer.content@ == answer_content(text, ended)
                &&& answer.tokens_used is None
                &&& answer.model@ == model@
                &&& answer.latency_ms == 0
            },
            Err(message) => r matches Err(e) && e@ == message,
        },
{
    let mut content = String::new();
    let mut i: usize = 0;
    while i < chunks.len()
        invariant
            i <= chunks.len(),
            gathered(chunks@, 0, Seq::<char>::empty()) == gathered(chunks@, i as int, content@),
        decreases chunks.len() - i,
    {
        match &chunks[i] {
            AiChunk::Start => {},
            AiChunk::Token { value } => {
                content.append(value.as_str());
            },
            AiChunk::End => {
                return Ok(
                    AiResponse {
                        content,
                        tokens_used: None,
                        model: String::from_str(model),
                        latency_ms: 0,
                    },
                );
            },
            AiChunk::Error { error } => {
                return Err(error.clone());
            },
        }
        i += 1;
    }
    proof {
        lemma_no_bytes_no_chars(content@);
    }
    if byte_length(content.as_str()) == 0 {
        content = String::from_str("(no response)");
    }
    Ok(AiResponse { content, tokens_used: None, model: String::from_str(model), latency_ms: 0 })
}

} // verus!
