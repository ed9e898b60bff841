//! Projects made from templates.

use crate::paths::{path_text, path_to_text};
use crate::text::{chars_of, contains, opt_text, same_text};
use std::path::PathBuf;
use vstd::prelude::*;
use vstd::string::StringExecFns;

verus! {

/// Why a project could not be made.
#[derive(Debug, Clone)]
pub enum WorkspaceError {
    InvalidTemplate(String),
    InvalidName(String),
    PathExists(PathBuf),
    Io(String),
}

impl WorkspaceError {
    /// The text that `message` renders.
    pub open spec fn message_text(&self) -> Seq<char> {
        match self {
            WorkspaceError::InvalidTemplate(t) => "Invalid template: "@ + t@
                + ". Use: empty, rust, python, node"@,
            WorkspaceError::InvalidName(n) => "Invalid name: "@ + n@,
            WorkspaceError::PathExists(p) => "Path already exists: "@ + path_text(*p),
            WorkspaceError::Io(e) => "IO error: "@ + e@,
        }
    }

    /// The error as text.
    pub fn message(&self) -> (r: String)
        ensures
            r@ == self.message_text(),
    {
        match self {
            WorkspaceError::InvalidTemplate(t) => {
                let mut s = String::from_str("Invalid template: ");
                s.append(t.as_str());
                s.append(". Use: empty, rust, python, node");
                s
            },
            WorkspaceError::InvalidName(n) => {
                let mut s = String::from_str("Invalid name: ");
                s.append(n.as_str());
                s
            },
            WorkspaceError::PathExists(p) => {
                let mut s = String::from_str("Path already exists: ");
                let text = path_to_text(p);
                s.append(text.as_str());
                s
            },
            WorkspaceError::Io(e) => {
                let mut s = String::from_str("IO error: ");
                s.append(e.as_str());
                s
            },
        }
    }
}

/// What a project's configuration file records.
#[derive(Debug, Clone)]
pub struct ProjectConfig {
    pub name: String,
    pub template: String,
    pub created: String,
}

impl ProjectConfig {
    /// The configuration of a project made at the time `created`.
    pub fn new(name: String, template: String, created: String) -> (r: ProjectConfig)
        ensures
            r.name == name,
            r.template == template,
            r.created == created,
    {
        ProjectConfig { name, template, created }
    }
}

/// The name is one of the templates: `empty`, `rust`, `python`, `node`.
pub open spec fn is_template(name: Seq<char>) -> bool {
    name == "empty"@ || name == "rust"@ || name == "python"@ || name == "node"@
}

/// Tests whether a name is one of the templates.
pub fn known_template(name: &str) -> (r: bool)
    ensures
        r == is_template(name@),
{
    same_text(name, "empty") || same_text(name, "rust") || same_text(name, "python") || same_text(
        name,
        "node",
    )
}

/// The name of the directory of a new project: the name asked for, or the
/// template's name followed by `-project` where none or an empty one is given.
pub open spec fn project_name(template: Seq<char>, name: Option<Seq<char>>) -> Seq<char> {
    match name {
        Some(n) => if n.len() > 0 {
            n
        } else {
            template + "-project"@
        },
        None => template + "-project"@,
    }
}

/// A name that cannot be a directory of its own: it holds a separator, or
/// it is `.` or `..`.
pub open spec fn bad_project_name(name: Seq<char>, separator: char) -> bool {
    ||| name.contains(separator)
    ||| name.contains('/')
    ||| name == "."@
    ||| name == ".."@
}

/// One file of a template: its path below the project, and its content.
#[derive(Debug, Clone)]
pub struct TemplateFile {
    pub path: String,
    pub content: String,
}

/// What to create for a new project.
#[derive(Debug, Clone)]
pub struct ProjectPlan {
    pub name: String,
    pub template: String,
    pub files: Vec<TemplateFile>,
}

/// The files of a template, as pairs of path and content.
pub open spec fn template_files(template: Seq<char>) -> Seq<(Seq<char>, Seq<char>)> {
    if template == "rust"@ {
        seq![
            (
                "Cargo.toml"@,
                "[package]\nname = \"app\"\nversion = \"0.1.0\"\nedition = \"2021\"\n\n[dependencies]\n"@,
            ),
            ("src/main.rs"@, "fn main() {\n    println!(\"Hello, world!\");\n}\n"@),
        ]
    } else if template == "python"@ {
        seq![
            ("requirements.txt"@, ""@),
            (
                "main.py"@,
                "def main():\n    print(\"Hello, world!\")\n\n\nif __name__ == \"__main__\":\n    main()\n"@,
            ),
        ]
    } else if template == "node"@ {
        seq![
            (
                "package.json"@,
                "{\n  \"name\": \"app\",\n  \"version\": \"1.0.0\",\n  \"main\": \"index.js\"\n}\n"@,
            ),
            ("index.js"@, "console.log(\"Hello, world!\");\n"@),
        ]
    } else {
        Seq::<(Seq<char>, Seq<char>)>::empty()
    }
}

/// The files of a plan, as pairs of path and content.
pub open spec fn plan_files(files: Seq<TemplateFile>) -> Seq<(Seq<char>, Seq<char>)> {
    files.map_values(|f: TemplateFile| (f.path@, f.content@))
}

fn template_file(path: &str, content: &str) -> (r: TemplateFile)
    ensures
        r.path@ == path@,
        r.content@ == content@,
{
    TemplateFile { path: String::from_str(path), content: String::from_str(content) }
}

fn contains_char(s: &Vec<char>, c: char) -> (r: bool)
    ensures
        r == s@.contains(c),
{
    let mut i: usize = 0;
    while i < s.len()
        invariant
            i <= s.len(),
            forall|j: int| 0 <= j < i ==> s@[j] != c,
        decreases s.len() - i,
    {
        if s[i] == c {
            return true;
        }
        i += 1;
    }
    false
}

/// Plans a project from a template. The template must be known, and the
/// name must be fit for a directory; `separator` is the path separator of
/// the platform. The plan names the directory and lists the files of the
/// template.
pub fn plan_project(template: &str, name: Option<&str>, separator: char) -> (r: Result<
    ProjectPlan,
    WorkspaceError,
>)
    ensures
        ({
            let wanted = project_name(template@, opt_text(name));
            if !is_template(template@) {
                r matches Err(WorkspaceError::InvalidTemplate(t)) && t@ == template@
            } else if bad_project_name(wanted, separator) {
                r matches Err(WorkspaceError::InvalidName(n)) && n@ == wanted
            } else {
                &&& r matches Ok(plan)
                &&& plan.name@ == wanted
                &&& plan.template@ == template@
                &&& plan_files(plan.files@) == template_files(template@)
            }
        }),
{
    if !known_template(template) {
        return Err(WorkspaceError::InvalidTemplate(String::from_str(template)));
    }
    let given: Option<&str> = match name {
        Some(n) => if chars_of(n).len() > 0 {
            Some(n)
        } else {
            None
        },
        None => None,
    };
    let project_name = match given {
        Some(n) => String::from_str(n),
        None => {
            let mut s = String::from_str(template);
            s.append("-project");
            s
        },
    };
    let chars = chars_of(project_name.as_str());
    if contains_char(&chars, separator) || contains_char(&chars, '/') || same_text(
        project_name.as_str(),
        ".",
    ) || same_text(project_name.as_str(), "..") {
        return Err(WorkspaceError::InvalidName(project_name));
    }
    let mut files: Vec<TemplateFile> = Vec::new();
    if same_text(template, "rust") {
        files.push(
            template_file(
                "Cargo.toml",
                "[package]\nname = \"app\"\nversion = \"0.1.0\"\nedition = \"2021\"\n\n[dependencies]\n",
            ),
        );
        files.push(
            template_file("src/main.rs", "fn main() {\n    println!(\"Hello, world!\");\n}\n"),
        );
    } else if same_text(template, "python") {
        files.push(template_file("requirements.txt", ""));
        files.push(
            template_file(
                "main.py",
                "def main():\n    print(\"Hello, world!\")\n\n\nif __name__ == \"__main__\":\n    main()\n",
            ),
        );
    } else if same_text(template, "node") {
        files.push(
            template_file(
                "package.json",
                "{\n  \"name\": \"app\",\n  \"version\": \"1.0.0\",\n  \"main\": \"index.js\"\n}\n",
            ),
        );
        files.push(template_file("index.js", "console.log(\"Hello, world!\");\n"));
    }
    proof {
        assert(plan_files(files@) =~= template_files(template@));
    }
    Ok(ProjectPlan { name: project_name, template: String::from_str(template), files })
}

} // verus!
