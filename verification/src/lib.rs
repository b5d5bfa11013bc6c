//! Keeps a public repository in step with one subdirectory of an internal
//! repository.
//!
//! The crate holds the decisions of that work and none of its effects: it
//! says which version-control command to run next and what a command's
//! output means, and leaves running the command to its caller. Every
//! function is a total function of its arguments, stated against a
//! specification and proved.

pub mod check;
pub mod config;
pub mod extract;
pub mod remote;
pub mod review;
pub mod state;
pub mod text;
pub mod update;
pub mod utils;

pub use crate::config::{ConfigFile, ProjectEntry};
use vstd::prelude::*;
use vstd::string::*;

verus! {

/// What can go wrong. Failures of the operating system and of file formats
/// are carried as the text of their diagnostic.
#[derive(Debug)]
pub enum PorterError {
    Config(String),
    ConfigNotFound(String),
    Io { detail: String, path: String },
    FsExtra(String),
    GitCommand { cmd: String, cwd: String, status: String, stdout: String, stderr: String },
    GitOperation(String),
    PathNotFound(String),
    OutputPathExists(String),
    ToolNotFound(String),
    SecretsFound(String),
    InternalDependency(String),
    TomlParse { detail: String, path: String },
    TomlSerialize(String),
    TempDir { detail: String },
}

/// The mathematical content of a [`PorterError`].
pub enum ErrorView {
    Config(Seq<char>),
    ConfigNotFound(Seq<char>),
    Io { detail: Seq<char>, path: Seq<char> },
    FsExtra(Seq<char>),
    GitCommand {
        cmd: Seq<char>,
        cwd: Seq<char>,
        status: Seq<char>,
        stdout: Seq<char>,
        stderr: Seq<char>,
    },
    GitOperation(Seq<char>),
    PathNotFound(Seq<char>),
    OutputPathExists(Seq<char>),
    ToolNotFound(Seq<char>),
    SecretsFound(Seq<char>),
    InternalDependency(Seq<char>),
    TomlParse { detail: Seq<char>, path: Seq<char> },
    TomlSerialize(Seq<char>),
    TempDir { detail: Seq<char> },
}

impl DeepView for PorterError {
    type V = ErrorView;

    open spec fn deep_view(&self) -> ErrorView {
        match self {
            PorterError::Config(m) => ErrorView::Config(m@),
            PorterError::ConfigNotFound(p) => ErrorView::ConfigNotFound(p@),
            PorterError::Io { detail, path } => ErrorView::Io { detail: detail@, path: path@ },
            PorterError::FsExtra(m) => ErrorView::FsExtra(m@),
            PorterError::GitCommand { cmd, cwd, status, stdout, stderr } => ErrorView::GitCommand {
                cmd: cmd@,
                cwd: cwd@,
                status: status@,
                stdout: stdout@,
                stderr: stderr@,
            },
            PorterError::GitOperation(m) => ErrorView::GitOperation(m@),
            PorterError::PathNotFound(p) => ErrorView::PathNotFound(p@),
            PorterError::OutputPathExists(p) => ErrorView::OutputPathExists(p@),
            PorterError::ToolNotFound(t) => ErrorView::ToolNotFound(t@),
            PorterError::SecretsFound(m) => ErrorView::SecretsFound(m@),
            PorterError::InternalDependency(m) => ErrorView::InternalDependency(m@),
            PorterError::TomlParse { detail, path } => ErrorView::TomlParse {
                detail: detail@,
                path: path@,
            },
            PorterError::TomlSerialize(m) => ErrorView::TomlSerialize(m@),
            PorterError::TempDir { detail } => ErrorView::TempDir { detail: detail@ },
        }
    }
}

/// Settings shared by all projects.
#[derive(Debug, Clone)]
pub struct GlobalConfig {
    pub default_license: Option<String>,
    pub secrets_scan_level: Option<String>,
}

impl Default for GlobalConfig {
    fn default() -> (r: GlobalConfig)
        ensures
            r.default_license is None,
            r.secrets_scan_level is None,
    {
        GlobalConfig { default_license: None, secrets_scan_level: None }
    }
}

/// How the public repository's history begins.
#[derive(Debug, Clone, Copy, PartialEq, Eq, Structural)]
pub enum HistoryMode {
    CleanSlate,
    Preserve,
}

impl Default for HistoryMode {
    fn default() -> (r: HistoryMode)
        ensures
            r == HistoryMode::CleanSlate,
    {
        HistoryMode::CleanSlate
    }
}

/// The branch that is tracked when a project names none.
pub fn default_branch() -> (r: String)
    ensures
        r@ == "main"@,
{
    "main".to_owned()
}

/// One tracked project. Paths are held as text; `project_subdir` is read
/// relative to `internal_repo_path`.
#[derive(Debug, Clone)]
pub struct ProjectConfig {
    pub internal_repo_path: String,
    pub project_subdir: String,
    pub output_path: String,
    pub public_repo_url: Option<String>,
    pub history_mode: HistoryMode,
    pub license: Option<String>,
    pub internal_branch: String,
    pub public_branch: String,
}

/// What an extraction produced.
#[derive(Debug)]
pub struct ExtractionResult {
    pub project_id: String,
    pub output_path: String,
    pub messages: Vec<String>,
    pub secrets_found: Vec<String>,
}

/// What the checks on an extracted project found.
#[derive(Debug)]
pub struct CheckResult {
    pub project_id: String,
    pub secrets_found: Vec<String>,
    pub internal_deps_found: Vec<String>,
    pub license_ok: bool,
}

/// The text that describes an error to a person.
pub open spec fn message_of(e: ErrorView) -> Seq<char> {
    match e {
        ErrorView::Config(m) => "Configuration Error: "@ + m,
        ErrorView::ConfigNotFound(p) => "Configuration file not found at path: "@ + p
            + "\nConsider running `oss-porter config init` to create a default file."@,
        ErrorView::Io { detail, path } => "I/O Error accessing '"@ + path + "': "@ + detail,
        ErrorView::FsExtra(m) => "Filesystem operation failed: "@ + m,
        ErrorView::GitCommand { cmd, cwd, status, stdout, stderr } =>
            "Git command failed.\n Command: "@ + cmd + "\n CWD: "@ + cwd + "\n Status: "@
                + status + "\n Stdout: "@ + stdout + "\n Stderr: "@ + stderr,
        ErrorView::GitOperation(m) => "Git operation failed: "@ + m,
        ErrorView::PathNotFound(p) => "Required path not found: "@ + p,
        ErrorView::OutputPathExists(p) => "Output path already exists and is not empty: "@ + p,
        ErrorView::ToolNotFound(t) => "Required external tool '"@ + t
            + "' not found in PATH. Please install it."@,
        ErrorView::SecretsFound(m) => "Secrets Scan Warning: "@ + m,
        ErrorView::InternalDependency(m) => "Dependency Check Warning: "@ + m,
        ErrorView::TomlParse { detail, path } => "Failed to parse TOML file '"@ + path + "': "@
            + detail,
        ErrorView::TomlSerialize(m) => "Failed to serialize TOML data: "@ + m,
        ErrorView::TempDir { detail } => "Failed to create/access temporary directory: "@ + detail,
    }
}

fn framed(before: &str, body: &str, after: &str) -> (r: String)
    ensures
        r@ == before@ + body@ + after@,
{
    let mut r = text::owned(before);
    r.append(body);
    r.append(after);
    r
}

fn prefixed(before: &str, body: &str) -> (r: String)
    ensures
        r@ == before@ + body@,
{
    let mut r = text::owned(before);
    r.append(body);
    r
}

fn quoted(before: &str, path: &str, between: &str, detail: &str) -> (r: String)
    ensures
        r@ == before@ + path@ + between@ + detail@,
{
    let mut r = text::owned(before);
    r.append(path);
    r.append(between);
    r.append(detail);
    r
}

impl PorterError {
    /// A copy of the error.
    pub fn duplicate(&self) -> (r: PorterError)
        ensures
            r.deep_view() == self.deep_view(),
    {
        match self {
            PorterError::Config(m) => PorterError::Config(m.clone()),
            PorterError::ConfigNotFound(p) => PorterError::ConfigNotFound(p.clone()),
            PorterError::Io { detail, path } => PorterError::Io {
                detail: detail.clone(),
                path: path.clone(),
            },
            PorterError::FsExtra(m) => PorterError::FsExtra(m.clone()),
            PorterError::GitCommand { cmd, cwd, status, stdout, stderr } => PorterError::GitCommand
            {
                cmd: cmd.clone(),
                cwd: cwd.clone(),
                status: status.clone(),
                stdout: stdout.clone(),
                stderr: stderr.clone(),
            },
            PorterError::GitOperation(m) => PorterError::GitOperation(m.clone()),
            PorterError::PathNotFound(p) => PorterError::PathNotFound(p.clone()),
            PorterError::OutputPathExists(p) => PorterError::OutputPathExists(p.clone()),
            PorterError::ToolNotFound(t) => PorterError::ToolNotFound(t.clone()),
            PorterError::SecretsFound(m) => PorterError::SecretsFound(m.clone()),
            PorterError::InternalDependency(m) => PorterError::InternalDependency(m.clone()),
            PorterError::TomlParse { detail, path } => PorterError::TomlParse {
                detail: detail.clone(),
                path: path.clone(),
            },
            PorterError::TomlSerialize(m) => PorterError::TomlSerialize(m.clone()),
            PorterError::TempDir { detail } => PorterError::TempDir { detail: detail.clone() },
        }
    }

    /// The text that describes the error to a person.
    pub fn message(&self) -> (r: String)
        ensures
            r@ == message_of(self.deep_view()),
    {
        match self {
            PorterError::Config(m) => prefixed("Configuration Error: ", m.as_str()),
            PorterError::ConfigNotFound(p) => framed(
                "Configuration file not found at path: ",
                p.as_str(),
                "\nConsider running `oss-porter config init` to create a default file.",
            ),
            PorterError::Io { detail, path } => quoted(
                "I/O Error accessing '",
                path.as_str(),
                "': ",
                detail.as_str(),
            ),
            PorterError::FsExtra(m) => prefixed("Filesystem operation failed: ", m.as_str()),
            PorterError::GitCommand { cmd, cwd, status, stdout, stderr } => {
                let mut r = text::owned("Git command failed.\n Command: ");
                r.append(cmd.as_str());
                r.append("\n CWD: ");
                r.append(cwd.as_str());
                r.append("\n Status: ");
                r.append(status.as_str());
                r.append("\n Stdout: ");
                r.append(stdout.as_str());
                r.append("\n Stderr: ");
                r.append(stderr.as_str());
                r
            },
            PorterError::GitOperation(m) => prefixed("Git operation failed: ", m.as_str()),
            PorterError::PathNotFound(p) => prefixed("Required path not found: ", p.as_str()),
            PorterError::OutputPathExists(p) => prefixed(
                "Output path already exists and is not empty: ",
                p.as_str(),
            ),
            PorterError::ToolNotFound(t) => framed(
                "Required external tool '",
                t.as_str(),
                "' not found in PATH. Please install it.",
            ),
            PorterError::SecretsFound(m) => prefixed("Secrets Scan Warning: ", m.as_str()),
            PorterError::InternalDependency(m) => prefixed(
                "Dependency Check Warning: ",
                m.as_str(),
            ),
            PorterError::TomlParse { detail, path } => quoted(
                "Failed to parse TOML file '",
                path.as_str(),
                "': ",
                detail.as_str(),
            ),
            PorterError::TomlSerialize(m) => prefixed(
                "Failed to serialize TOML data: ",
                m.as_str(),
            ),
            PorterError::TempDir { detail } => prefixed(
                "Failed to create/access temporary directory: ",
                detail.as_str(),
            ),
        }
    }
}

} // verus!
