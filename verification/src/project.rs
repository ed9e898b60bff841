//! The project that is open.

use crate::paths::{
    path_file_name, path_join, path_joined, path_last_name, path_text, path_to_text,
};
use std::path::PathBuf;
use vstd::prelude::*;
use vstd::string::StringExecFns;

verus! {

/// Why a project could not be opened.
#[derive(Debug, Clone)]
pub enum ProjectError {
    NotOpened,
    InvalidPath(String),
}

impl ProjectError {
    /// The text that `message` renders.
    pub open spec fn message_text(&self) -> Seq<char> {
        match self {
            ProjectError::NotOpened => "Project not opened"@,
            ProjectError::InvalidPath(detail) => "Invalid path: "@ + detail@,
        }
    }

    /// The error as text.
    pub fn message(&self) -> (r: String)
        ensures
            r@ == self.message_text(),
    {
        match self {
            ProjectError::NotOpened => String::from_str("Project not opened"),
            ProjectError::InvalidPath(detail) => {
                let mut s = String::from_str("Invalid path: ");
                s.append(detail.as_str());
                s
            },
        }
    }
}

/// An open project.
#[derive(Debug, Clone)]
pub struct Project {
    pub root: PathBuf,
    pub name: String,
}

/// What the file system says of a directory that is to be opened.
#[derive(Debug)]
pub struct RootProbe {
    /// The path exists and is a directory.
    pub is_directory: bool,
    /// Whether the project's own directory could be set up below it.
    pub workspace: Result<(), String>,
}

/// The name of a project: the last component of its root, or `project`
/// where the root has none.
pub open spec fn project_name_of(root: PathBuf) -> Seq<char> {
    match path_file_name(root) {
        Some(name) => name,
        None => "project"@,
    }
}

/// The name of a project.
pub fn name_of_root(root: &PathBuf) -> (r: String)
    ensures
        r@ == project_name_of(*root),
{
    match path_last_name(root) {
        Some(name) => name,
        None => String::from_str("project"),
    }
}

/// Holds the project that is open, if any.
#[derive(Debug)]
pub struct ProjectService {
    pub current: Option<Project>,
}

impl ProjectService {
    pub fn new() -> (r: ProjectService)
        ensures
            r.current is None,
    {
        ProjectService { current: None }
    }

    /// Opens the project at `root`, given what the file system says of it.
    /// A path that is no directory is refused, and so is a root below
    /// which the project's own directory cannot be set up; the project
    /// that was open stays open then.
    pub fn open(&mut self, root: PathBuf, probe: RootProbe) -> (r: Result<&Project, ProjectError>)
        ensures
            match r {
                Ok(opened) => {
                    &&& probe.is_directory
                    &&& probe.workspace is Ok
                    &&& final(self).current == Some(*opened)
                    &&& opened.root == root
                    &&& opened.name@ == project_name_of(root)
                },
                Err(ProjectError::InvalidPath(detail)) => {
                    &&& final(self).current == old(self).current
                    &&& if !probe.is_directory {
                        detail@ == path_text(root)
                    } else {
                        probe.workspace matches Err(e) && detail@
                            == "Workspace init failed: "@ + e@
                    }
                },
                Err(ProjectError::NotOpened) => false,
            },
    {
        if !probe.is_directory {
            return Err(ProjectError::InvalidPath(path_to_text(&root)));
        }
        match probe.workspace {
            Ok(_) => {},
            Err(e) => {
                let mut detail = String::from_str("Workspace init failed: ");
                detail.append(e.as_str());
                return Err(ProjectError::InvalidPath(detail));
            },
        }
        let name = name_of_root(&root);
        self.current = Some(Project { root, name });
        match &self.current {
            Some(opened) => Ok(opened),
            None => Err(ProjectError::NotOpened),
        }
    }

    /// Closes the project that is open.
    pub fn close(&mut self)
        ensures
            final(self).current is None,
    {
        self.current = None;
    }

    /// The project that is open.
    pub fn current(&self) -> (r: Option<&Project>)
        ensures
            match r {
                Some(p) => self.current == Some(*p),
                None => self.current is None,
            },
    {
        self.current.as_ref()
    }
}

impl Default for ProjectService {
    fn default() -> (r: ProjectService)
        ensures
            r.current is None,
    {
        ProjectService { current: None }
    }
}

/// Reads and writes files for the user interface.
#[derive(Debug, Clone, Copy)]
pub struct FsService;

impl FsService {
    pub fn new() -> (r: FsService) {
        FsService
    }
}

impl Default for FsService {
    fn default() -> (r: FsService) {
        FsService
    }
}

/// Why a file could not be read or written.
#[derive(Debug, Clone)]
pub enum FsError {
    Io(String),
    NotFound(PathBuf),
}

impl FsError {
    /// The text that `message` renders.
    pub open spec fn message_text(&self) -> Seq<char> {
        match self {
            FsError::Io(detail) => "IO error: "@ + detail@,
            FsError::NotFound(path) => "Path not found: "@ + path_text(*path),
        }
    }

    /// The error as text.
    pub fn message(&self) -> (r: String)
        ensures
            r@ == self.message_text(),
    {
        match self {
            FsError::Io(detail) => {
                let mut s = String::from_str("IO error: ");
                s.append(detail.as_str());
                s
            },
            FsError::NotFound(path) => {
                let mut s = String::from_str("Path not found: ");
                let text = path_to_text(path);
                s.append(text.as_str());
                s
            },
        }
    }
}

/// Looks at a project's repository.
#[derive(Debug, Clone, Copy)]
pub struct GitService;

impl GitService {
    pub fn new() -> (r: GitService) {
        GitService
    }

    /// The path whose existence makes `path` a repository.
    pub fn marker(&self, path: &PathBuf) -> (r: PathBuf)
        ensures
            r == path_joined(*path, ".git"@),
    {
        path_join(path, ".git")
    }

    /// A path is a repository exactly when its marker exists.
    pub fn is_repo(&self, marker_exists: bool) -> (r: bool)
        ensures
            r == marker_exists,
    {
        marker_exists
    }
}

impl Default for GitService {
    fn default() -> (r: GitService) {
        GitService
    }
}

} // verus!
