//! The context of a request: the current file, the selection, the project
//! tree and further files, gathered under limits.

use crate::text::{byte_len, byte_length, decimal, decimal_string};
use std::path::PathBuf;
use vstd::prelude::*;
use vstd::string::StringExecFns;

verus! {

/// Why a context could not be built.
#[derive(Debug)]
pub enum ContextError {
    LimitExceeded(String),
}

impl ContextError {
    /// The text that `message` renders.
    pub open spec fn message_text(&self) -> Seq<char> {
        match self {
            ContextError::LimitExceeded(detail) => "Context limit exceeded: "@ + detail@,
        }
    }

    /// The error as text.
    pub fn message(&self) -> (r: String)
        ensures
            r@ == self.message_text(),
    {
        match self {
            ContextError::LimitExceeded(detail) => {
                let mut s = String::from_str("Context limit exceeded: ");
                s.append(detail.as_str());
                s
            },
        }
    }
}

/// Limits of a context: bytes of text, and number of files.
#[derive(Debug, Clone)]
pub struct ContextLimits {
    pub max_chars: usize,
    pub max_files: usize,
}

impl Default for ContextLimits {
    fn default() -> (r: ContextLimits)
        ensures
            r.max_chars == 100_000,
            r.max_files == 50,
    {
        ContextLimits { max_chars: 100_000, max_files: 50 }
    }
}

/// A file with its content.
#[derive(Debug, Clone)]
pub struct FileContext {
    pub path: PathBuf,
    pub content: String,
}

/// A gathered context.
#[derive(Debug, Clone)]
pub struct Context {
    pub current_file: Option<FileContext>,
    pub selection: Option<String>,
    pub project_tree: Vec<PathBuf>,
    pub extra_files: Vec<FileContext>,
}

/// Bytes of content of the first `n` files.
pub open spec fn files_bytes(files: Seq<FileContext>, n: int) -> nat
    decreases n,
{
    if n <= 0 || n > files.len() {
        0
    } else {
        files_bytes(files, n - 1) + byte_len(files[n - 1].content@)
    }
}

/// Gathers a context under limits.
pub struct ContextBuilder {
    pub limits: ContextLimits,
    pub current_file: Option<FileContext>,
    pub selection: Option<String>,
    pub project_tree: Vec<PathBuf>,
    pub extra_files: Vec<FileContext>,
}

impl ContextBuilder {
    /// Bytes of text gathered so far: the current file, the selection and
    /// the further files.
    pub open spec fn total_bytes(&self) -> nat {
        (match self.current_file {
            Some(f) => byte_len(f.content@),
            None => 0,
        }) + (match self.selection {
            Some(s) => byte_len(s@),
            None => 0,
        }) + files_bytes(self.extra_files@, self.extra_files@.len() as int)
    }

    /// The text of the error for a context of `total` bytes over a limit of `max`.
    pub open spec fn limit_detail(total: nat, max: nat) -> Seq<char> {
        decimal(total) + " > "@ + decimal(max)
    }

    pub fn new(limits: ContextLimits) -> (r: ContextBuilder)
        ensures
            r.limits == limits,
            r.current_file is None,
            r.selection is None,
            r.project_tree@.len() == 0,
            r.extra_files@.len() == 0,
    {
        ContextBuilder {
            limits,
            current_file: None,
            selection: None,
            project_tree: Vec::new(),
            extra_files: Vec::new(),
        }
    }

    /// Sets the current file.
    pub fn current_file(self, path: PathBuf, content: String) -> (r: ContextBuilder)
        ensures
            r.current_file == Some(FileContext { path, content }),
            r.limits == self.limits,
            r.selection == self.selection,
            r.project_tree == self.project_tree,
            r.extra_files == self.extra_files,
    {
        let mut b = self;
        b.current_file = Some(FileContext { path, content });
        b
    }

    /// Sets the selection.
    pub fn selection(self, text: String) -> (r: ContextBuilder)
        ensures
            r.selection == Some(text),
            r.limits == self.limits,
            r.current_file == self.current_file,
            r.project_tree == self.project_tree,
            r.extra_files == self.extra_files,
    {
        let mut b = self;
        b.selection = Some(text);
        b
    }

    /// Sets the project tree to the first `max_files` of `paths`.
    pub fn project_tree(self, paths: Vec<PathBuf>) -> (r: ContextBuilder)
        ensures
            r.project_tree@ == if paths@.len() <= self.limits.max_files {
                paths@
            } else {
                paths@.subrange(0, self.limits.max_files as int)
            },
            r.limits == self.limits,
            r.current_file == self.current_file,
            r.selection == self.selection,
            r.extra_files == self.extra_files,
    {
        let mut b = self;
        let mut kept = paths;
        if kept.len() > b.limits.max_files {
            kept.truncate(b.limits.max_files);
        }
        b.project_tree = kept;
        b
    }

    /// Adds a further file, unless `max_files` of them are held already.
    pub fn add_file(self, path: PathBuf, content: String) -> (r: ContextBuilder)
        ensures
            r.extra_files@ == if self.extra_files@.len() < self.limits.max_files {
                self.extra_files@.push(FileContext { path, content })
            } else {
                self.extra_files@
            },
            r.limits == self.limits,
            r.current_file == self.current_file,
            r.selection == self.selection,
            r.project_tree == self.project_tree,
    {
        let mut b = self;
        if b.extra_files.len() < b.limits.max_files {
            b.extra_files.push(FileContext { path, content });
        }
        b
    }

    /// Builds the context. It is refused where the gathered text is over
    /// `max_chars` bytes, with an error that names both numbers.
    pub fn build(self) -> (r: Result<Context, ContextError>)
        ensures
            match r {
                Ok(context) => {
                    &&& self.total_bytes() <= self.limits.max_chars
                    &&& context.current_file == self.current_file
                    &&& context.selection == self.selection
                    &&& context.project_tree == self.project_tree
                    &&& context.extra_files == self.extra_files
                },
                Err(ContextError::LimitExceeded(detail)) => {
                    &&& self.total_bytes() > self.limits.max_chars
                    &&& detail@ == Self::limit_detail(
                        self.total_bytes(),
                        self.limits.max_chars as nat,
                    )
                },
            },
    {
        let mut total: u128 = 0;
        match &self.current_file {
            Some(f) => {
                total = total + byte_length(f.content.as_str()) as u128;
            },
            None => {},
        }
        match &self.selection {
            Some(s) => {
                total = total + byte_length(s.as_str()) as u128;
            },
            None => {},
        }
        let ghost head = total as nat;
        let mut i: usize = 0;
        while i < self.extra_files.len()
            invariant
                i <= self.extra_files.len(),
                head <= 2 * usize::MAX,
                total == head + files_bytes(self.extra_files@, i as int),
                total <= (i + 2) * usize::MAX,
            decreases self.extra_files.len() - i,
        {
            let size = byte_length(self.extra_files[i].content.as_str());
            proof {
                assert((i + 2) * usize::MAX + size <= (i + 3) * usize::MAX) by (nonlinear_arith)
                    requires
                        size <= usize::MAX,
                ;
                assert((i + 3) * usize::MAX <= 0x1_0000_0000_0000_0001 * 0xFFFF_FFFF_FFFF_FFFF)
                    by (nonlinear_arith)
                    requires
                        i + 3 <= 0x1_0000_0000_0000_0001,
                        usize::MAX <= 0xFFFF_FFFF_FFFF_FFFF,
                        0 <= i,
                ;
            }
            total = total + size as u128;
            i += 1;
        }
        if total > self.limits.max_chars as u128 {
            let mut detail = decimal_string(total);
            detail.append(" > ");
            let max = decimal_string(self.limits.max_chars as u128);
            detail.append(max.as_str());
            return Err(ContextError::LimitExceeded(detail));
        }
        Ok(
            Context {
                current_file: self.current_file,
                selection: self.selection,
                project_tree: self.project_tree,
                extra_files: self.extra_files,
            },
        )
    }
}

} // verus!
