//! The catalogue of models that can be fetched.

use std::path::PathBuf;
use vstd::prelude::*;
use vstd::string::StringExecFns;

verus! {

/// Why a model could not be had.
#[derive(Debug, Clone)]
pub enum ModelManagerError {
    NotFound(String),
    DownloadFailed(String),
    InsufficientResources(String),
}

impl ModelManagerError {
    /// The text that `message` renders.
    pub open spec fn message_text(&self) -> Seq<char> {
        match self {
            ModelManagerError::NotFound(d) => "Model not found: "@ + d@,
            ModelManagerError::DownloadFailed(d) => "Download failed: "@ + d@,
            ModelManagerError::InsufficientResources(d) => "Insufficient resources: "@ + d@,
        }
    }

    /// The error as text.
    pub fn message(&self) -> (r: String)
        ensures
            r@ == self.message_text(),
    {
        let (head, detail) = match self {
            ModelManagerError::NotFound(d) => ("Model not found: ", d),
            ModelManagerError::DownloadFailed(d) => ("Download failed: ", d),
            ModelManagerError::InsufficientResources(d) => ("Insufficient resources: ", d),
        };
        let mut s = String::from_str(head);
        s.append(detail.as_str());
        s
    }
}

/// A model and what it needs.
#[derive(Debug, Clone)]
pub struct ModelInfo {
    pub id: String,
    pub name: String,
    pub size_bytes: u64,
    pub required_ram_gb: u32,
    pub supports_gpu: bool,
}

/// Knows the directory of the models. It fetches nothing yet.
#[derive(Debug, Clone)]
pub struct ModelManager {
    pub models_dir: PathBuf,
}

impl ModelManager {
    pub fn new(models_dir: PathBuf) -> (r: ModelManager)
        ensures
            r.models_dir == models_dir,
    {
        ModelManager { models_dir }
    }

    /// The models that are there: none.
    pub fn list_available(&self) -> (r: Vec<ModelInfo>)
        ensures
            r@.len() == 0,
    {
        Vec::new()
    }

    /// No model is loaded.
    pub fn is_loaded(&self, model_id: &str) -> (r: bool)
        ensures
            !r,
    {
        false
    }

    /// The answer to a request to fetch a model: it is refused.
    pub fn download(&self, model_id: &str) -> (r: Result<(), ModelManagerError>)
        ensures
            r matches Err(ModelManagerError::DownloadFailed(d)) && d@
                == "Download not implemented"@,
    {
        Err(ModelManagerError::DownloadFailed(String::from_str("Download not implemented")))
    }

    pub fn models_dir(&self) -> (r: &PathBuf)
        ensures
            r == &self.models_dir,
    {
        &self.models_dir
    }
}

} // verus!
