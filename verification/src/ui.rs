//! What the user interface sends and is sent, and the settings of the
//! providers that the user keeps.

use crate::agent::progress::AgentProgress;
use crate::audit::{event_lines, filled_lines};
use crate::providers::{AiChunk, ApiProvider};
use crate::router::AiRequest;
use crate::text::{chars_of, decimal, decimal_string, same_text, texts, trim_str, trimmed};
use vstd::prelude::*;
use vstd::string::StringExecFns;

verus! {

/// A chunk of an answer, tied to its request.
#[derive(Debug, Clone)]
pub struct AiChunkPayload {
    pub request_id: String,
    pub chunk: AiChunk,
}

/// The role and the model that were selected for a request.
#[derive(Debug, Clone)]
pub struct AiModelSelectedPayload {
    pub request_id: String,
    pub role: String,
    pub model_id: String,
}

/// The progress of an agent run, tied to its request.
#[derive(Debug, Clone)]
pub struct AgentProgressPayload {
    pub request_id: String,
    pub progress: AgentProgress,
}

/// Whether the local model can be used.
#[derive(Debug, Clone, Copy, PartialEq, Eq, Structural)]
pub enum LocalModelStatus {
    NotAvailable,
    NotLoaded,
    Ready,
}

#[derive(Debug, Clone)]
pub struct OpenProjectPayload {
    pub path: String,
}

/// A node of the tree of files in the side panel.
pub struct ProjectTreeNode {
    pub name: String,
    pub path: String,
    pub kind: String,
    pub children: Option<Vec<ProjectTreeNode>>,
}

/// The state of the repository for the status bar.
#[derive(Debug, Clone)]
pub struct GitStatus {
    pub branch: String,
    pub changes: u32,
}

/// A patch to undo.
#[derive(Debug, Clone)]
pub struct PatchForRollback {
    pub path: String,
    pub before: String,
    pub after: String,
}

#[derive(Debug, Clone)]
pub struct CreateProjectPayload {
    pub template: String,
    pub parent_dir: Option<String>,
    pub name: Option<String>,
}

/// A provider as the user interface lists it.
#[derive(Debug, Clone)]
pub struct ProviderInfo {
    pub id: String,
    pub name: String,
    pub available: bool,
}

#[derive(Debug, Clone)]
pub struct SetActiveProviderPayload {
    pub provider_id: Option<String>,
}

#[derive(Debug, Clone)]
pub struct AiRequestPayload {
    pub request: AiRequest,
    pub current_file_path: Option<String>,
    pub current_file_content: Option<String>,
    pub selection: Option<String>,
}

/// One provider of the user's settings.
#[derive(Debug, Clone)]
pub struct ProviderEntry {
    pub id: String,
    pub provider_type: String,
    pub api_key: Option<String>,
    pub base_url: Option<String>,
    pub client_id: Option<String>,
    pub client_secret: Option<String>,
}

/// The user's settings: the providers, and the one that is active.
#[derive(Debug, Clone)]
pub struct AiConfig {
    pub providers: Vec<ProviderEntry>,
    pub active_provider_id: Option<String>,
}

impl Default for AiConfig {
    fn default() -> (r: AiConfig)
        ensures
            r.providers@.len() == 0,
            r.active_provider_id is None,
    {
        AiConfig { providers: Vec::new(), active_provider_id: None }
    }
}

/// The key of an entry, where it has one that is not empty.
pub open spec fn usable_key(entry: ProviderEntry) -> Option<String> {
    match entry.api_key {
        Some(key) => if key@.len() > 0 {
            Some(key)
        } else {
            None
        },
        None => None,
    }
}

fn key_of(entry: &ProviderEntry) -> (r: Option<String>)
    ensures
        r == usable_key(*entry),
{
    match &entry.api_key {
        Some(key) => if chars_of(key.as_str()).len() > 0 {
            Some(key.clone())
        } else {
            None
        },
        None => None,
    }
}

/// The provider that an entry of the settings stands for. The kinds
/// `openai`, `kimi` and `mistral` give their provider under the entry's
/// id, with the entry's key where that is not empty. The kind `custom`
/// gives a provider only with a key that is not empty and an address. Any
/// other kind gives none.
pub fn provider_from_entry(entry: &ProviderEntry) -> (r: Option<ApiProvider>)
    ensures
        ({
            let kind = entry.provider_type@;
            let key = usable_key(*entry);
            if kind == "openai"@ {
                r matches Some(p) && p.describes(
                    entry.id@,
                    "OpenAI"@,
                    key,
                    "https://api.openai.com/v1"@,
                )
            } else if kind == "kimi"@ {
                r matches Some(p) && p.describes(
                    entry.id@,
                    "Kimi (Moonshot)"@,
                    key,
                    "https://api.moonshot.cn/v1"@,
                )
            } else if kind == "mistral"@ {
                r matches Some(p) && p.describes(
                    entry.id@,
                    "Mistral AI"@,
                    key,
                    "https://api.mistral.ai/v1"@,
                )
            } else if kind == "custom"@ {
                match (key, entry.base_url) {
                    (Some(k), Some(url)) => r matches Some(p) && p.describes(
                        entry.id@,
                        "Custom API"@,
                        Some(k),
                        url@,
                    ),
                    _ => r is None,
                }
            } else {
                r is None
            }
        }),
{
    let kind = entry.provider_type.as_str();
    if same_text(kind, "openai") {
        Some(ApiProvider::openai_with_id(entry.id.clone(), key_of(entry)))
    } else if same_text(kind, "kimi") {
        Some(ApiProvider::kimi_with_id(entry.id.clone(), key_of(entry)))
    } else if same_text(kind, "mistral") {
        Some(ApiProvider::mistral_with_id(entry.id.clone(), key_of(entry)))
    } else if same_text(kind, "custom") {
        match (key_of(entry), &entry.base_url) {
            (Some(key), Some(url)) => Some(
                ApiProvider::custom(
                    entry.id.clone(),
                    String::from_str("Custom API"),
                    key,
                    url.clone(),
                ),
            ),
            _ => None,
        }
    } else {
        None
    }
}

/// Adds an OpenAI provider with the given key to the settings and makes
/// it the active one. The key is trimmed, and an empty key is refused; the
/// settings stay as they are then.
pub fn add_openai_entry(config: &mut AiConfig, api_key: &str) -> (r: Result<String, String>)
    ensures
        if trimmed(api_key@).len() == 0 {
            &&& r matches Err(message)
            &&& message@ == "API key не может быть пустым"@
            &&& *final(config) == *old(config)
        } else {
            &&& r matches Ok(key)
            &&& key@ == trimmed(api_key@)
            &&& final(config).providers@.len() == old(config).providers@.len() + 1
            &&& final(config).providers@.take(old(config).providers@.len() as int) == old(
                config,
            ).providers@
            &&& ({
                let entry = final(config).providers@.last();
                &&& entry.id@ == "openai-"@ + decimal(old(config).providers@.len())
                &&& entry.provider_type@ == "openai"@
                &&& (entry.api_key matches Some(k) && k@ == trimmed(api_key@))
                &&& entry.base_url is None
                &&& entry.client_id is None
                &&& entry.client_secret is None
            })
            &&& (final(config).active_provider_id matches Some(id) && id@ == "cloud-openai"@)
        },
{
    let key = trim_str(api_key);
    if chars_of(key.as_str()).len() == 0 {
        return Err(String::from_str("API key не может быть пустым"));
    }
    let mut id = String::from_str("openai-");
    let digits = decimal_string(config.providers.len() as u128);
    id.append(digits.as_str());
    config.providers.push(
        ProviderEntry {
            id,
            provider_type: String::from_str("openai"),
            api_key: Some(key.clone()),
            base_url: None,
            client_id: None,
            client_secret: None,
        },
    );
    config.active_provider_id = Some(String::from_str("cloud-openai"));
    proof {
        assert(config.providers@.take(old(config).providers@.len() as int) =~= old(
            config,
        ).providers@);
    }
    Ok(key)
}

/// The name of the branch for the status bar: what the repository printed,
/// trimmed, or `detached` where it printed nothing.
pub open spec fn branch_name(printed: Seq<char>) -> Seq<char> {
    if trimmed(printed).len() == 0 {
        "detached"@
    } else {
        trimmed(printed)
    }
}

/// The state of the repository, from what it printed for its branch and
/// for its changes: one change for each line that is not empty.
pub fn git_status_of(branch_output: &str, changes_output: &str) -> (r: GitStatus)
    ensures
        r.branch@ == branch_name(branch_output@),
        r.changes == filled_lines(changes_output@, 0, 0).len() as u32,
{
    let branch = trim_str(branch_output);
    let lines = event_lines(changes_output);
    proof {
        assert(texts(lines@).len() == lines@.len());
    }
    GitStatus {
        branch: if chars_of(branch.as_str()).len() == 0 {
            String::from_str("detached")
        } else {
            branch
        },
        changes: #[verifier::truncate]
        (lines.len() as u32),
    }
}

/// The file that is open in the editor, where both its path and its
/// content were sent.
pub fn current_file_of(payload: &AiRequestPayload) -> (r: Option<(String, String)>)
    ensures
        match (payload.current_file_path, payload.current_file_content) {
            (Some(path), Some(content)) => r == Some((path, content)),
            _ => r is None,
        },
{
    match (&payload.current_file_path, &payload.current_file_content) {
        (Some(path), Some(content)) => Some((path.clone(), content.clone())),
        _ => None,
    }
}

} // verus!
