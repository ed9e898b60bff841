//! The vocabulary shared with model providers: modes, capabilities, the
//! chunks of a streamed answer, and the description of a cloud provider.

use vstd::prelude::*;
use vstd::string::StringExecFns;

verus! {

/// What a generation is asked to do.
#[derive(Debug, Clone, Copy, PartialEq, Eq, Hash, Structural)]
pub enum AiMode {
    Chat,
    Explain,
    Refactor,
    Generate,
    /// Plan, call tools, check. Changes files.
    Agent,
}

/// Where a provider runs.
#[derive(Debug, Clone, Copy, PartialEq, Eq, Structural)]
pub enum ProviderType {
    Local,
    Cloud,
}

/// One chunk of a streamed answer: `Start`, then tokens, then `End` or `Error`.
#[derive(Debug, Clone)]
pub enum AiChunk {
    Start,
    Token { value: String },
    End,
    Error { error: String },
}

/// What the editor shows while a request is made.
#[derive(Debug, Clone)]
pub struct EditorContext {
    pub path: Option<String>,
    pub content: Option<String>,
    pub selection: Option<String>,
}

impl Default for EditorContext {
    fn default() -> (r: EditorContext)
        ensures
            r.path is None,
            r.content is None,
            r.selection is None,
    {
        EditorContext { path: None, content: None, selection: None }
    }
}

/// A request for one generation. The id ties chunks and cancellation to it.
#[derive(Debug, Clone)]
pub struct GenerateRequest {
    pub id: String,
    pub prompt: String,
    pub context: Option<EditorContext>,
    pub mode: AiMode,
}

/// The modes a provider serves and the context it can hold.
#[derive(Debug, Clone)]
pub struct ProviderCapabilities {
    pub modes: Vec<AiMode>,
    pub max_context_tokens: Option<usize>,
}

impl ProviderCapabilities {
    /// The provider serves `mode`.
    pub open spec fn serves(&self, mode: AiMode) -> bool {
        self.modes@.contains(mode)
    }

    /// Tests whether the provider serves `mode`.
    pub fn supports(&self, mode: AiMode) -> (r: bool)
        ensures
            r == self.serves(mode),
    {
        let mut i: usize = 0;
        while i < self.modes.len()
            invariant
                i <= self.modes.len(),
                forall|j: int| 0 <= j < i ==> self.modes@[j] != mode,
            decreases self.modes.len() - i,
        {
            if self.modes[i] == mode {
                return true;
            }
            i += 1;
        }
        false
    }

    /// Capabilities that serve every mode.
    pub fn all_modes(max_context_tokens: Option<usize>) -> (r: ProviderCapabilities)
        ensures
            forall|m: AiMode| r.serves(m),
            r.max_context_tokens == max_context_tokens,
    {
        let mut modes: Vec<AiMode> = Vec::new();
        modes.push(AiMode::Chat);
        modes.push(AiMode::Explain);
        modes.push(AiMode::Refactor);
        modes.push(AiMode::Generate);
        modes.push(AiMode::Agent);
        proof {
            assert(modes@[0] == AiMode::Chat);
            assert(modes@[1] == AiMode::Explain);
            assert(modes@[2] == AiMode::Refactor);
            assert(modes@[3] == AiMode::Generate);
            assert(modes@[4] == AiMode::Agent);
            assert forall|m: AiMode| modes@.contains(m) by {
                match m {
                    AiMode::Chat => assert(modes@[0] == m),
                    AiMode::Explain => assert(modes@[1] == m),
                    AiMode::Refactor => assert(modes@[2] == m),
                    AiMode::Generate => assert(modes@[3] == m),
                    AiMode::Agent => assert(modes@[4] == m),
                }
            }
        }
        ProviderCapabilities { modes, max_context_tokens }
    }
}

/// A whole answer, for callers that do not stream.
#[derive(Debug, Clone)]
pub struct AiResponse {
    pub content: String,
    pub tokens_used: Option<u32>,
    pub model: String,
    pub latency_ms: u64,
}

/// Why a provider could not answer.
#[derive(Debug, Clone)]
pub enum ProviderError {
    Unavailable(String),
    Generation(String),
}

impl ProviderError {
    /// The text that `message` renders.
    pub open spec fn message_text(&self) -> Seq<char> {
        match self {
            ProviderError::Unavailable(detail) => "Provider unavailable: "@ + detail@,
            ProviderError::Generation(detail) => "Generation failed: "@ + detail@,
        }
    }

    /// The error as text.
    pub fn message(&self) -> (r: String)
        ensures
            r@ == self.message_text(),
    {
        match self {
            ProviderError::Unavailable(detail) => {
                let mut s = String::from_str("Provider unavailable: ");
                s.append(detail.as_str());
                s
            },
            ProviderError::Generation(detail) => {
                let mut s = String::from_str("Generation failed: ");
                s.append(detail.as_str());
                s
            },
        }
    }
}

/// A provider behind an HTTP API: its identity, its key and its endpoint.
#[derive(Debug, Clone)]
pub struct ApiProvider {
    pub id: String,
    pub name: String,
    pub api_key: Option<String>,
    pub base_url: Option<String>,
}

impl ApiProvider {
    /// The provider has the given identity and key, and the endpoint `url`.
    pub open spec fn describes(
        &self,
        id: Seq<char>,
        name: Seq<char>,
        api_key: Option<String>,
        url: Seq<char>,
    ) -> bool {
        &&& self.id@ == id
        &&& self.name@ == name
        &&& self.api_key == api_key
        &&& (self.base_url matches Some(u) && u@ == url)
    }

    pub fn new(id: String, name: String, api_key: Option<String>, base_url: Option<String>) -> (r:
        ApiProvider)
        ensures
            r.id == id,
            r.name == name,
            r.api_key == api_key,
            r.base_url == base_url,
    {
        ApiProvider { id, name, api_key, base_url }
    }

    pub fn openai(api_key: Option<String>) -> (r: ApiProvider)
        ensures
            r.describes("cloud-openai"@, "OpenAI"@, api_key, "https://api.openai.com/v1"@),
    {
        Self::openai_with_id(String::from_str("cloud-openai"), api_key)
    }

    pub fn openai_with_id(id: String, api_key: Option<String>) -> (r: ApiProvider)
        ensures
            r.describes(id@, "OpenAI"@, api_key, "https://api.openai.com/v1"@),
    {
        Self::new(
            id,
            String::from_str("OpenAI"),
            api_key,
            Some(String::from_str("https://api.openai.com/v1")),
        )
    }

    pub fn kimi(api_key: Option<String>) -> (r: ApiProvider)
        ensures
            r.describes("cloud-kimi"@, "Kimi (Moonshot)"@, api_key, "https://api.moonshot.cn/v1"@),
    {
        Self::kimi_with_id(String::from_str("cloud-kimi"), api_key)
    }

    pub fn kimi_with_id(id: String, api_key: Option<String>) -> (r: ApiProvider)
        ensures
            r.describes(id@, "Kimi (Moonshot)"@, api_key, "https://api.moonshot.cn/v1"@),
    {
        Self::new(
            id,
            String::from_str("Kimi (Moonshot)"),
            api_key,
            Some(String::from_str("https://api.moonshot.cn/v1")),
        )
    }

    pub fn mistral(api_key: Option<String>) -> (r: ApiProvider)
        ensures
            r.describes("cloud-mistral"@, "Mistral AI"@, api_key, "https://api.mistral.ai/v1"@),
    {
        Self::mistral_with_id(String::from_str("cloud-mistral"), api_key)
    }

    pub fn mistral_with_id(id: String, api_key: Option<String>) -> (r: ApiProvider)
        ensures
            r.describes(id@, "Mistral AI"@, api_key, "https://api.mistral.ai/v1"@),
    {
        Self::new(
            id,
            String::from_str("Mistral AI"),
            api_key,
            Some(String::from_str("https://api.mistral.ai/v1")),
        )
    }

    pub fn custom(id: String, name: String, api_key: String, base_url: String) -> (r: ApiProvider)
        ensures
            r.id == id,
            r.name == name,
            r.api_key == Some(api_key),
            r.base_url == Some(base_url),
    {
        Self::new(id, name, Some(api_key), Some(base_url))
    }

    /// A cloud provider.
    pub fn provider_type(&self) -> (r: ProviderType)
        ensures
            r == ProviderType::Cloud,
    {
        ProviderType::Cloud
    }

    /// Every mode, with a context of 200,000 tokens.
    pub fn capabilities(&self) -> (r: ProviderCapabilities)
        ensures
            forall|m: AiMode| r.serves(m),
            r.max_context_tokens == Some(200_000usize),
    {
        ProviderCapabilities::all_modes(Some(200_000))
    }

    /// The provider can be used exactly when it has a key.
    pub fn is_available(&self) -> (r: bool)
        ensures
            r == self.api_key is Some,
    {
        self.api_key.is_some()
    }

    /// The chunks of a generation: refused without a key; with one, a start
    /// followed by the error that says that no endpoint is wired in.
    pub fn generate(&self) -> (r: Result<Vec<AiChunk>, ProviderError>)
        ensures
            match r {
                Err(e) => self.api_key is None && (e matches ProviderError::Unavailable(d) && d@
                    == "API key not configured"@),
                Ok(chunks) => {
                    &&& self.api_key is Some
                    &&& chunks@.len() == 2
                    &&& chunks@[0] is Start
                    &&& (chunks@[1] matches AiChunk::Error { error } && error@
                        == "API provider not yet implemented"@)
                },
            },
    {
        if self.api_key.is_none() {
            return Err(ProviderError::Unavailable(String::from_str("API key not configured")));
        }
        let mut chunks: Vec<AiChunk> = Vec::new();
        chunks.push(AiChunk::Start);
        chunks.push(AiChunk::Error { error: String::from_str("API provider not yet implemented") });
        Ok(chunks)
    }
}

} // verus!
