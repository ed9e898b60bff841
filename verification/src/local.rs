//! Models that run on this machine: which there are, where their files
//! lie, and where they are fetched from.

use crate::order::{
    law_least_of, least_of, lex_le, pairs_view, sort_pairs, sorted_pairs, text_le,
};
use crate::paths::{path_from, path_join, path_joined, path_of};
use crate::text::{
    chars_of, contains, contains_sub, ends_with, expand_char, has_suffix, opt_view, same_text,
    texts, with_char_expanded,
};
use std::path::PathBuf;
use vstd::prelude::*;
use vstd::string::StringExecFns;

verus! {

/// The models that can run on this machine.
#[derive(Debug, Clone, Copy, PartialEq, Eq, Structural)]
pub enum ModelVariant {
    /// The general model for a desktop.
    GigaChat,
    /// The model for code.
    DeepSeekCoder,
    /// The small, fast model.
    SmolLM2,
    /// The full model.
    Full,
}

impl Default for ModelVariant {
    fn default() -> (r: ModelVariant)
        ensures
            r == ModelVariant::GigaChat,
    {
        ModelVariant::GigaChat
    }
}

impl ModelVariant {
    /// The id of the model in a policy table.
    pub open spec fn id(&self) -> Seq<char> {
        match self {
            ModelVariant::GigaChat => "gigachat3"@,
            ModelVariant::DeepSeekCoder => "deepseek-coder"@,
            ModelVariant::SmolLM2 => "smollm2"@,
            ModelVariant::Full => "gigachat3-702b"@,
        }
    }

    /// The directory of the model below the directory of all models.
    pub open spec fn subdir(&self) -> Seq<char> {
        match self {
            ModelVariant::GigaChat => "gigachat3-10b-a18b"@,
            ModelVariant::DeepSeekCoder => "deepseek-coder-6.7b"@,
            ModelVariant::SmolLM2 => "smollm2-1.7b"@,
            ModelVariant::Full => "gigachat3-702b-a36b"@,
        }
    }

    pub fn model_id(&self) -> (r: &'static str)
        ensures
            r@ == self.id(),
    {
        match self {
            ModelVariant::GigaChat => "gigachat3",
            ModelVariant::DeepSeekCoder => "deepseek-coder",
            ModelVariant::SmolLM2 => "smollm2",
            ModelVariant::Full => "gigachat3-702b",
        }
    }

    pub fn display_name(&self) -> (r: &'static str)
        ensures
            r@ == match self {
                ModelVariant::GigaChat => "GigaChat3 10B"@,
                ModelVariant::DeepSeekCoder => "DeepSeek-Coder 6.7B"@,
                ModelVariant::SmolLM2 => "SmolLM2 1.7B"@,
                ModelVariant::Full => "GigaChat3 702B"@,
            },
    {
        match self {
            ModelVariant::GigaChat => "GigaChat3 10B",
            ModelVariant::DeepSeekCoder => "DeepSeek-Coder 6.7B",
            ModelVariant::SmolLM2 => "SmolLM2 1.7B",
            ModelVariant::Full => "GigaChat3 702B",
        }
    }

    pub fn provider_id(&self) -> (r: &'static str)
        ensures
            r@ == match self {
                ModelVariant::GigaChat => "local-gigachat"@,
                ModelVariant::DeepSeekCoder => "local-deepseek"@,
                ModelVariant::SmolLM2 => "local-smollm2"@,
                ModelVariant::Full => "local-gigachat-702b"@,
            },
    {
        match self {
            ModelVariant::GigaChat => "local-gigachat",
            ModelVariant::DeepSeekCoder => "local-deepseek",
            ModelVariant::SmolLM2 => "local-smollm2",
            ModelVariant::Full => "local-gigachat-702b",
        }
    }

    /// The name of the model in the record that is written beside its files.
    pub fn metadata_name(&self) -> (r: &'static str)
        ensures
            r@ == match self {
                ModelVariant::GigaChat => "GigaChat3-10B-A1.8B"@,
                ModelVariant::DeepSeekCoder => "DeepSeek-Coder-6.7B-Instruct"@,
                ModelVariant::SmolLM2 => "SmolLM2-1.7B-Instruct"@,
                ModelVariant::Full => "GigaChat3-702B-A36B-preview"@,
            },
    {
        match self {
            ModelVariant::GigaChat => "GigaChat3-10B-A1.8B",
            ModelVariant::DeepSeekCoder => "DeepSeek-Coder-6.7B-Instruct",
            ModelVariant::SmolLM2 => "SmolLM2-1.7B-Instruct",
            ModelVariant::Full => "GigaChat3-702B-A36B-preview",
        }
    }
}

/// Where the files of a model are fetched from.
#[derive(Debug, Clone, Copy)]
pub struct HfModel {
    /// The repository.
    pub repo_id: &'static str,
    /// The quantisation wanted.
    pub quant: &'static str,
    /// The name of the file, or of the directory of a model in parts.
    pub file_pattern: &'static str,
}

impl ModelVariant {
    /// Where the files of the model are fetched from.
    pub fn hf_model(&self) -> (r: HfModel)
        ensures
            r.repo_id@ == match self {
                ModelVariant::GigaChat => "ubergarm/GigaChat3-10B-A1.8B-GGUF"@,
                ModelVariant::DeepSeekCoder => "TheBloke/deepseek-coder-6.7B-instruct-GGUF"@,
                ModelVariant::SmolLM2 => "HuggingFaceTB/SmolLM2-1.7B-Instruct-GGUF"@,
                ModelVariant::Full => "bartowski/ai-sage_GigaChat3-702B-A36B-preview-GGUF"@,
            },
            r.quant@ == match self {
                ModelVariant::GigaChat => "Q8_0"@,
                ModelVariant::DeepSeekCoder => "Q4_K_M"@,
                ModelVariant::SmolLM2 => "q4_k_m"@,
                ModelVariant::Full => "IQ2_XXS"@,
            },
            r.file_pattern@ == match self {
                ModelVariant::GigaChat => "GigaChat3-10B-A1.8B-Q8_0.gguf"@,
                ModelVariant::DeepSeekCoder => "deepseek-coder-6.7b-instruct.Q4_K_M.gguf"@,
                ModelVariant::SmolLM2 => "smollm2-1.7b-instruct-q4_k_m.gguf"@,
                ModelVariant::Full => "ai-sage_GigaChat3-702B-A36B-preview-IQ2_XXS"@,
            },
    {
        match self {
            ModelVariant::GigaChat => HfModel {
                repo_id: "ubergarm/GigaChat3-10B-A1.8B-GGUF",
                quant: "Q8_0",
                file_pattern: "GigaChat3-10B-A1.8B-Q8_0.gguf",
            },
            ModelVariant::DeepSeekCoder => HfModel {
                repo_id: "TheBloke/deepseek-coder-6.7B-instruct-GGUF",
                quant: "Q4_K_M",
                file_pattern: "deepseek-coder-6.7b-instruct.Q4_K_M.gguf",
            },
            ModelVariant::SmolLM2 => HfModel {
                repo_id: "HuggingFaceTB/SmolLM2-1.7B-Instruct-GGUF",
                quant: "q4_k_m",
                file_pattern: "smollm2-1.7b-instruct-q4_k_m.gguf",
            },
            ModelVariant::Full => HfModel {
                repo_id: "bartowski/ai-sage_GigaChat3-702B-A36B-preview-GGUF",
                quant: "IQ2_XXS",
                file_pattern: "ai-sage_GigaChat3-702B-A36B-preview-IQ2_XXS",
            },
        }
    }
}

/// One entry of the list of a repository's files.
#[derive(Debug, Clone)]
pub struct HfTreeItem {
    pub item_type: String,
    pub path: String,
    pub size: Option<u64>,
}

impl HfTreeItem {
    /// The entry is a model file: a file whose name ends in `.gguf`.
    pub open spec fn model_file(&self) -> bool {
        self.item_type@ == "file"@ && has_suffix(self.path@, ".gguf"@)
    }

    /// The entry is the model file wanted: a model file that has the name
    /// wanted, or the quantisation wanted in its name.
    pub open spec fn wanted(&self, pattern: Seq<char>, quant: Seq<char>) -> bool {
        self.model_file() && (self.path@ == pattern || contains_sub(self.path@, quant))
    }

    /// Tests whether the entry is a model file.
    pub fn is_model_file(&self) -> (r: bool)
        ensures
            r == self.model_file(),
    {
        same_text(self.item_type.as_str(), "file") && ends_with(
            &chars_of(self.path.as_str()),
            &chars_of(".gguf"),
        )
    }

    /// Tests whether the entry is the model file wanted.
    pub fn is_wanted(&self, pattern: &str, quant: &str) -> (r: bool)
        ensures
            r == self.wanted(pattern@, quant@),
    {
        self.is_model_file() && (same_text(self.path.as_str(), pattern) || contains(
            &chars_of(self.path.as_str()),
            &chars_of(quant),
        ))
    }
}

/// Index of the first entry at or after `from` that is the model file wanted.
pub open spec fn first_wanted(
    items: Seq<HfTreeItem>,
    pattern: Seq<char>,
    quant: Seq<char>,
    from: int,
) -> Option<int>
    decreases items.len() - from,
{
    if from < 0 || from >= items.len() {
        None
    } else if items[from].wanted(pattern, quant) {
        Some(from)
    } else {
        first_wanted(items, pattern, quant, from + 1)
    }
}

/// The file to fetch for a model that comes in one file: the first entry
/// of the list that is the model file wanted, with its size, which counts
/// as zero where the list gives none. Without such an entry the fetch
/// fails, and the error names the repository.
pub fn pick_model_file(items: &Vec<HfTreeItem>, model: &HfModel) -> (r: Result<
    (String, u64),
    LocalProviderError,
>)
    ensures
        match first_wanted(items@, model.file_pattern@, model.quant@, 0) {
            Some(at) => r matches Ok((path, size)) && path@ == items@[at].path@ && size == match
                items@[at].size {
                Some(n) => n,
                None => 0,
            },
            None => r matches Err(LocalProviderError::DownloadFailed(text)) && text@
                == "GGUF file not found in "@ + model.repo_id@,
        },
{
    let mut i: usize = 0;
    while i < items.len()
        invariant
            i <= items.len(),
            first_wanted(items@, model.file_pattern@, model.quant@, 0) == first_wanted(
                items@,
                model.file_pattern@,
                model.quant@,
                i as int,
            ),
        decreases items.len() - i,
    {
        if items[i].is_wanted(model.file_pattern, model.quant) {
            let size = match items[i].size {
                Some(n) => n,
                None => 0,
            };
            return Ok((items[i].path.clone(), size));
        }
        i += 1;
    }
    let mut text = String::from_str("GGUF file not found in ");
    text.append(model.repo_id);
    Err(LocalProviderError::DownloadFailed(text))
}

/// The size of the context for a generation: room for the answer, for the
/// prompt at a quarter of its bytes, and 256 tokens more, but no more than
/// the default context.
pub fn context_size_for(max_tokens: usize, prompt_bytes: usize) -> (r: usize)
    ensures
        r == if max_tokens + prompt_bytes / 4 + 256 < DEFAULT_CONTEXT_SIZE {
            max_tokens + prompt_bytes / 4 + 256
        } else {
            DEFAULT_CONTEXT_SIZE as int
        },
{
    let prompt_tokens = prompt_bytes / 4;
    if max_tokens >= DEFAULT_CONTEXT_SIZE || prompt_tokens >= DEFAULT_CONTEXT_SIZE {
        return DEFAULT_CONTEXT_SIZE;
    }
    let wanted = max_tokens + prompt_tokens + 256;
    if wanted < DEFAULT_CONTEXT_SIZE {
        wanted
    } else {
        DEFAULT_CONTEXT_SIZE
    }
}

/// The most tokens of an answer: what is asked for, but no more than the
/// default, which also stands in where nothing is asked for.
pub fn answer_tokens(asked: Option<usize>) -> (r: usize)
    ensures
        r == match asked {
            Some(n) => if n < DEFAULT_MAX_TOKENS {
                n
            } else {
                DEFAULT_MAX_TOKENS
            },
            None => DEFAULT_MAX_TOKENS,
        },
{
    match asked {
        Some(n) => if n < DEFAULT_MAX_TOKENS {
            n
        } else {
            DEFAULT_MAX_TOKENS
        },
        None => DEFAULT_MAX_TOKENS,
    }
}

/// The context of a local model, in tokens.
pub const DEFAULT_CONTEXT_SIZE: usize = 8192;

/// Most tokens of one answer of a local model.
pub const DEFAULT_MAX_TOKENS: usize = 2048;

/// The address from which a file of a repository is fetched.
pub fn hf_resolve_url(repo_id: &str, path: &str) -> (r: String)
    ensures
        r@ == "https://huggingface.co/"@ + repo_id@ + "/resolve/main/"@ + path@,
{
    let mut url = String::from_str("https://huggingface.co/");
    url.append(repo_id);
    url.append("/resolve/main/");
    url.append(path);
    url
}

/// The address that lists the files of a repository below `path`: each
/// `/` of the path is written `%2F`, and an empty path lists the top.
pub open spec fn tree_url(repo_id: Seq<char>, path: Seq<char>) -> Seq<char> {
    let top = "https://huggingface.co/api/models/"@ + repo_id + "/tree/main"@;
    if path.len() == 0 {
        top
    } else {
        top + "/"@ + with_char_expanded(path, '/', "%2F"@)
    }
}

/// The address that lists the files of a repository below `path`.
pub fn hf_api_tree_url(repo_id: &str, path: &str) -> (r: String)
    ensures
        r@ == tree_url(repo_id@, path@),
{
    let mut url = String::from_str("https://huggingface.co/api/models/");
    url.append(repo_id);
    url.append("/tree/main");
    if chars_of(path).len() > 0 {
        url.append("/");
        let encoded = expand_char(path, '/', "%2F");
        url.append(encoded.as_str());
    }
    url
}

/// How local models are run.
#[derive(Debug, Clone)]
pub struct LocalConfig {
    pub models_dir: PathBuf,
    pub context_size: usize,
    pub max_tokens: usize,
    pub n_threads: Option<usize>,
    pub model_variant: ModelVariant,
}

impl LocalConfig {
    /// The directory of the model.
    pub fn model_dir(&self) -> (r: PathBuf)
        ensures
            r == path_joined(self.models_dir, self.model_variant.subdir()),
    {
        let subdir = match self.model_variant {
            ModelVariant::GigaChat => "gigachat3-10b-a18b",
            ModelVariant::DeepSeekCoder => "deepseek-coder-6.7b",
            ModelVariant::SmolLM2 => "smollm2-1.7b",
            ModelVariant::Full => "gigachat3-702b-a36b",
        };
        path_join(&self.models_dir, subdir)
    }

    /// The directory of the model, under its former name.
    pub fn gigachat3_dir(&self) -> (r: PathBuf)
        ensures
            r == path_joined(self.models_dir, self.model_variant.subdir()),
    {
        self.model_dir()
    }

    /// Where the models lie: in `kengaide/models` below the directory of
    /// the user's local data, or below the working directory where the
    /// user has no such directory.
    pub open spec fn models_dir_below(local_data: Option<PathBuf>) -> PathBuf {
        path_joined(
            path_joined(
                match local_data {
                    Some(base) => base,
                    None => path_of("."@),
                },
                "kengaide"@,
            ),
            "models"@,
        )
    }

    /// Where the models lie, given the directory of the user's local data.
    pub fn default_models_dir(local_data: Option<&PathBuf>) -> (r: PathBuf)
        ensures
            r == Self::models_dir_below(
                match local_data {
                    Some(base) => Some(*base),
                    None => None,
                },
            ),
    {
        let app_dir = match local_data {
            Some(base) => path_join(base, "kengaide"),
            None => path_join(&path_from("."), "kengaide"),
        };
        path_join(&app_dir, "models")
    }

    /// The configuration used where none is given, with the models where
    /// `default_models_dir` puts them.
    pub fn default_config(local_data: Option<&PathBuf>) -> (r: LocalConfig)
        ensures
            r.models_dir == Self::models_dir_below(
                match local_data {
                    Some(base) => Some(*base),
                    None => None,
                },
            ),
            r.context_size == DEFAULT_CONTEXT_SIZE,
            r.max_tokens == DEFAULT_MAX_TOKENS,
            r.n_threads is None,
            r.model_variant == ModelVariant::GigaChat,
    {
        LocalConfig {
            models_dir: Self::default_models_dir(local_data),
            context_size: DEFAULT_CONTEXT_SIZE,
            max_tokens: DEFAULT_MAX_TOKENS,
            n_threads: None,
            model_variant: ModelVariant::GigaChat,
        }
    }
}

/// Why a local model could not be used.
#[derive(Debug, Clone)]
pub enum LocalProviderError {
    ModelNotFound(String),
    IntegrityCheckFailed(String),
    DownloadFailed(String),
    InferenceFailed(String),
    ModelLoadFailed(String),
    HardwareDetectionFailed(String),
    Io(String),
}

impl LocalProviderError {
    /// The text that `message` renders.
    pub open spec fn message_text(&self) -> Seq<char> {
        match self {
            LocalProviderError::ModelNotFound(d) => "model not found: "@ + d@,
            LocalProviderError::IntegrityCheckFailed(d) => "model integrity check failed: "@ + d@,
            LocalProviderError::DownloadFailed(d) => "download failed: "@ + d@,
            LocalProviderError::InferenceFailed(d) => "inference failed: "@ + d@,
            LocalProviderError::ModelLoadFailed(d) => "model load failed: "@ + d@,
            LocalProviderError::HardwareDetectionFailed(d) => "hardware detection failed: "@ + d@,
            LocalProviderError::Io(d) => "IO error: "@ + d@,
        }
    }

    /// The error as text.
    pub fn message(&self) -> (r: String)
        ensures
            r@ == self.message_text(),
    {
        let (head, detail) = match self {
            LocalProviderError::ModelNotFound(d) => ("model not found: ", d),
            LocalProviderError::IntegrityCheckFailed(d) => ("model integrity check failed: ", d),
            LocalProviderError::DownloadFailed(d) => ("download failed: ", d),
            LocalProviderError::InferenceFailed(d) => ("inference failed: ", d),
            LocalProviderError::ModelLoadFailed(d) => ("model load failed: ", d),
            LocalProviderError::HardwareDetectionFailed(d) => ("hardware detection failed: ", d),
            LocalProviderError::Io(d) => ("IO error: ", d),
        };
        let mut s = String::from_str(head);
        s.append(detail.as_str());
        s
    }
}

/// How far a download is.
#[derive(Debug, Clone)]
pub struct DownloadProgress {
    pub bytes_done: u64,
    pub bytes_total: u64,
    pub file_index: usize,
    pub file_count: usize,
}

/// A model on disk.
#[derive(Debug, Clone)]
pub struct ModelInfo {
    pub id: String,
    pub path: PathBuf,
    pub loaded: bool,
}

/// A file name has the extension `gguf`: it ends in `.gguf` and has
/// something before that.
pub open spec fn gguf_name(name: Seq<char>) -> bool {
    has_suffix(name, ".gguf"@) && name.len() > ".gguf"@.len()
}

/// Tests whether a file name has the extension `gguf`.
pub fn is_gguf_name(name: &str) -> (r: bool)
    ensures
        r == gguf_name(name@),
{
    let chars = chars_of(name);
    let ending = chars_of(".gguf");
    ends_with(&chars, &ending) && chars.len() > ending.len()
}

/// The name of the model file among the files of a directory: the least
/// of the names with the extension `gguf`, which for a model in parts is
/// its first part.
pub open spec fn model_file_name(files: Seq<Seq<char>>) -> Option<Seq<char>> {
    least_of(files, |name: Seq<char>| gguf_name(name), files.len() as int)
}

/// The model file is one of the files with the extension `gguf`, no such
/// file comes before it, and there is none exactly where the directory
/// holds no such file.
pub proof fn law_model_file_is_least(files: Seq<Seq<char>>)
    ensures
        match model_file_name(files) {
            Some(best) => {
                &&& gguf_name(best)
                &&& files.contains(best)
                &&& forall|j: int|
                    0 <= j < files.len() && gguf_name(#[trigger] files[j]) ==> lex_le(
                        best,
                        files[j],
                    )
            },
            None => forall|j: int| 0 <= j < files.len() ==> !gguf_name(#[trigger] files[j]),
        },
{
    let wanted = |name: Seq<char>| gguf_name(name);
    law_least_of(files, wanted, files.len() as int);
    assert forall|j: int| 0 <= j < files.len() implies wanted(#[trigger] files[j]) == gguf_name(
        files[j],
    ) by {}
}

/// Picks the model file among the files of a directory.
pub fn pick_gguf(files: &Vec<String>) -> (r: Option<String>)
    ensures
        opt_view(r) == model_file_name(texts(files@)),
{
    let ghost wanted = |name: Seq<char>| gguf_name(name);
    let mut best: Option<String> = None;
    let mut i: usize = 0;
    while i < files.len()
        invariant
            i <= files.len(),
            wanted == |name: Seq<char>| gguf_name(name),
            opt_view(best) == least_of(texts(files@), wanted, i as int),
        decreases files.len() - i,
    {
        let name = &files[i];
        proof {
            assert(texts(files@)[i as int] == name@);
            assert(wanted(name@) == gguf_name(name@));
        }
        if is_gguf_name(name.as_str()) {
            let better = match &best {
                Some(b) => !text_le(&chars_of(b.as_str()), &chars_of(name.as_str())),
                None => true,
            };
            if better {
                best = Some(name.clone());
            }
        }
        i += 1;
    }
    best
}

/// Looks after the files of the configured model. `files` is, throughout,
/// the names of the files in the model's directory, and `None` where the
/// directory does not exist or cannot be read.
#[derive(Debug, Clone)]
pub struct ModelManager {
    pub config: LocalConfig,
}

impl ModelManager {
    pub fn new(config: LocalConfig) -> (r: ModelManager)
        ensures
            r.config == config,
    {
        ModelManager { config }
    }

    /// The path of the model file, given the files of the model's directory.
    pub open spec fn gguf_path(&self, files: Option<Seq<Seq<char>>>) -> Option<PathBuf> {
        match files {
            Some(names) => match model_file_name(names) {
                Some(name) => Some(
                    path_joined(
                        path_joined(self.config.models_dir, self.config.model_variant.subdir()),
                        name,
                    ),
                ),
                None => None,
            },
            None => None,
        }
    }

    /// The files of a directory as texts.
    pub open spec fn listing(files: Option<&Vec<String>>) -> Option<Seq<Seq<char>>> {
        match files {
            Some(names) => Some(texts(names@)),
            None => None,
        }
    }

    /// The path of the model file: in the model's directory, the least of
    /// the files with the extension `gguf`.
    pub fn find_gguf_path(&self, files: Option<&Vec<String>>) -> (r: Option<PathBuf>)
        ensures
            r == self.gguf_path(Self::listing(files)),
    {
        match files {
            Some(names) => match pick_gguf(names) {
                Some(name) => Some(path_join(&self.config.model_dir(), name.as_str())),
                None => None,
            },
            None => None,
        }
    }

    /// A model is loaded where it is the configured one and its file is there.
    pub fn is_loaded(&self, name: &str, files: Option<&Vec<String>>) -> (r: bool)
        ensures
            r == (name@ == self.config.model_variant.id() && self.gguf_path(
                Self::listing(files),
            ) is Some),
    {
        if !same_text(name, self.config.model_variant.model_id()) {
            return false;
        }
        self.find_gguf_path(files).is_some()
    }

    /// The files are in order where the model file is among them and
    /// exists; `exists` says whether the path that `find_gguf_path` gives
    /// does.
    pub fn verify_files(&self, files: Option<&Vec<String>>, exists: bool) -> (r: Result<
        bool,
        LocalProviderError,
    >)
        ensures
            r matches Ok(b) && b == (self.gguf_path(Self::listing(files)) is Some && exists),
    {
        match self.find_gguf_path(files) {
            Some(_) => Ok(exists),
            None => Ok(false),
        }
    }

    /// Every file passes: no checksum is held to check against.
    pub fn verify_integrity(&self, path: &PathBuf) -> (r: Result<bool, LocalProviderError>)
        ensures
            r matches Ok(b) && b,
    {
        Ok(true)
    }

    /// The models on disk: the configured one, with the path of its model
    /// file, where that file is there; none otherwise.
    pub fn list_models(&self, files: Option<&Vec<String>>) -> (r: Result<
        Vec<ModelInfo>,
        LocalProviderError,
    >)
        ensures
            r matches Ok(models) && match self.gguf_path(Self::listing(files)) {
                Some(path) => {
                    &&& models@.len() == 1
                    &&& models@[0].id@ == self.config.model_variant.id()
                    &&& models@[0].path == path
                    &&& models@[0].loaded
                },
                None => models@.len() == 0,
            },
    {
        let mut models: Vec<ModelInfo> = Vec::new();
        match self.find_gguf_path(files) {
            Some(path) => {
                models.push(
                    ModelInfo {
                        id: String::from_str(self.config.model_variant.model_id()),
                        path,
                        loaded: true,
                    },
                );
            },
            None => {},
        }
        Ok(models)
    }

    /// The file to switch to: the model file, or the error `ModelNotFound`
    /// with the name asked for where there is none. The name has no part
    /// in the choice of the file.
    pub fn hot_swap(&self, name: &str, files: Option<&Vec<String>>) -> (r: Result<
        PathBuf,
        LocalProviderError,
    >)
        ensures
            match self.gguf_path(Self::listing(files)) {
                Some(path) => r == Ok::<PathBuf, LocalProviderError>(path),
                None => r matches Err(LocalProviderError::ModelNotFound(n)) && n@ == name@,
            },
    {
        match self.find_gguf_path(files) {
            Some(path) => Ok(path),
            None => Err(LocalProviderError::ModelNotFound(String::from_str(name))),
        }
    }
}

/// The model files of a list with their sizes, in the order of the list;
/// a size that the list does not give counts as zero.
pub open spec fn model_pairs(items: Seq<HfTreeItem>, n: int) -> Seq<(Seq<char>, u64)>
    decreases n,
{
    if n <= 0 || n > items.len() {
        Seq::<(Seq<char>, u64)>::empty()
    } else if items[n - 1].model_file() {
        model_pairs(items, n - 1).push(
            (
                items[n - 1].path@,
                match items[n - 1].size {
                    Some(size) => size,
                    None => 0,
                },
            ),
        )
    } else {
        model_pairs(items, n - 1)
    }
}

/// The files to fetch for a model that comes in parts: the model files of
/// the list with their sizes, in the order of their paths. A list without
/// a model file fails the fetch.
pub fn pick_model_files(items: &Vec<HfTreeItem>) -> (r: Result<
    Vec<(String, u64)>,
    LocalProviderError,
>)
    ensures
        ({
            let wanted = model_pairs(items@, items@.len() as int);
            if wanted.len() == 0 {
                r matches Err(LocalProviderError::DownloadFailed(text)) && text@
                    == "No GGUF files in 702B quant"@
            } else {
                r matches Ok(files) && pairs_view(files@) == sorted_pairs(wanted)
            }
        }),
{
    let mut files: Vec<(String, u64)> = Vec::new();
    let mut i: usize = 0;
    proof {
        assert(pairs_view(files@) =~= model_pairs(items@, 0));
    }
    while i < items.len()
        invariant
            i <= items.len(),
            pairs_view(files@) == model_pairs(items@, i as int),
        decreases items.len() - i,
    {
        if items[i].is_model_file() {
            let size = match items[i].size {
                Some(size) => size,
                None => 0,
            };
            let ghost before = pairs_view(files@);
            let path = items[i].path.clone();
            let ghost text = path@;
            files.push((path, size));
            proof {
                assert(pairs_view(files@) =~= before.push((text, size)));
            }
        }
        i += 1;
    }
    if files.len() == 0 {
        proof {
            assert(pairs_view(files@).len() == files@.len());
        }
        return Err(LocalProviderError::DownloadFailed(String::from_str("No GGUF files in 702B quant")));
    }
    proof {
        assert(pairs_view(files@).len() == files@.len());
    }
    Ok(sort_pairs(files))
}

} // verus!
