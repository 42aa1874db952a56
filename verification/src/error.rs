//! Errors of the tool and its exit codes.

use vstd::prelude::*;
use crate::text::{push_str, string_of};

verus! {

/// Everything that stops a comparison.
#[derive(Debug, Clone)]
pub enum AppError {
    NotGitRepository,
    GitNotFound,
    UnknownRevision(String),
    FileGetFailed { path: String, commit: String },
    OutputExists(String),
    ConfigReadFailed { path: String, detail: String },
    MissingRequiredField(String),
    InvalidGlobPattern(String),
    ProtectedPath(String),
    HostResolveFailed(String),
    CloneFailed(String),
    AuthenticationFailed(String),
    RemoteRefFetchFailed(String),
    GitCommandFailed(String),
    /// An input or output failure, by its message.
    Io(String),
    InvalidFilterStatus(String),
    ThreeWayRequiresBase,
    Other(String),
}

/// An error with its texts seen as character sequences.
pub enum ErrorView {
    NotGitRepository,
    GitNotFound,
    UnknownRevision(Seq<char>),
    FileGetFailed { path: Seq<char>, commit: Seq<char> },
    OutputExists(Seq<char>),
    ConfigReadFailed { path: Seq<char>, detail: Seq<char> },
    MissingRequiredField(Seq<char>),
    InvalidGlobPattern(Seq<char>),
    ProtectedPath(Seq<char>),
    HostResolveFailed(Seq<char>),
    CloneFailed(Seq<char>),
    AuthenticationFailed(Seq<char>),
    RemoteRefFetchFailed(Seq<char>),
    GitCommandFailed(Seq<char>),
    Io(Seq<char>),
    InvalidFilterStatus(Seq<char>),
    ThreeWayRequiresBase,
    Other(Seq<char>),
}

impl View for AppError {
    type V = ErrorView;

    open spec fn view(&self) -> ErrorView {
        match self {
            AppError::NotGitRepository => ErrorView::NotGitRepository,
            AppError::GitNotFound => ErrorView::GitNotFound,
            AppError::UnknownRevision(r) => ErrorView::UnknownRevision(r@),
            AppError::FileGetFailed { path, commit } => ErrorView::FileGetFailed {
                path: path@,
                commit: commit@,
            },
            AppError::OutputExists(p) => ErrorView::OutputExists(p@),
            AppError::ConfigReadFailed { path, detail } => ErrorView::ConfigReadFailed {
                path: path@,
                detail: detail@,
            },
            AppError::MissingRequiredField(f) => ErrorView::MissingRequiredField(f@),
            AppError::InvalidGlobPattern(p) => ErrorView::InvalidGlobPattern(p@),
            AppError::ProtectedPath(p) => ErrorView::ProtectedPath(p@),
            AppError::HostResolveFailed(h) => ErrorView::HostResolveFailed(h@),
            AppError::CloneFailed(u) => ErrorView::CloneFailed(u@),
            AppError::AuthenticationFailed(u) => ErrorView::AuthenticationFailed(u@),
            AppError::RemoteRefFetchFailed(r) => ErrorView::RemoteRefFetchFailed(r@),
            AppError::GitCommandFailed(m) => ErrorView::GitCommandFailed(m@),
            AppError::Io(m) => ErrorView::Io(m@),
            AppError::InvalidFilterStatus(s) => ErrorView::InvalidFilterStatus(s@),
            AppError::ThreeWayRequiresBase => ErrorView::ThreeWayRequiresBase,
            AppError::Other(m) => ErrorView::Other(m@),
        }
    }
}

/// The message shown for an error.
pub open spec fn error_message(e: AppError) -> Seq<char> {
    match e {
        AppError::NotGitRepository => "Not a git repository (or any parent up to /)"@,
        AppError::GitNotFound => "Git command not found. Please install Git or specify path with --git-path or settings.toml/--config."@,
        AppError::UnknownRevision(r) => "Unknown revision '"@ + r@ + "'"@,
        AppError::FileGetFailed { path, commit } => "Failed to get file '"@ + path@
            + "' from commit "@ + commit@,
        AppError::OutputExists(p) => "Output directory '"@ + p@
            + "' already exists. Use --force to overwrite."@,
        AppError::ConfigReadFailed { path, detail } => "Failed to read config file '"@ + path@
            + "': "@ + detail@,
        AppError::MissingRequiredField(f) => "Missing required field '"@ + f@
            + "' in config file"@,
        AppError::InvalidGlobPattern(p) => "Invalid glob pattern '"@ + p@ + "'"@,
        AppError::ProtectedPath(p) => "Cannot use --force on protected path '"@ + p@ + "'"@,
        AppError::HostResolveFailed(h) => "Could not resolve host '"@ + h@ + "'"@,
        AppError::CloneFailed(u) => "Failed to clone repository '"@ + u@ + "'"@,
        AppError::AuthenticationFailed(u) => "Authentication failed for '"@ + u@ + "'"@,
        AppError::RemoteRefFetchFailed(r) => "Could not fetch ref '"@ + r@ + "' from remote"@,
        AppError::GitCommandFailed(m) => "Git command failed: "@ + m@,
        AppError::Io(m) => "IO error: "@ + m@,
        AppError::InvalidFilterStatus(s) => "Invalid filter status: "@ + s@,
        AppError::ThreeWayRequiresBase => "Three-way mode requires --base option"@,
        AppError::Other(m) => m@,
    }
}

impl AppError {
    /// The message shown for this error.
    pub fn message(&self) -> (r: String)
        ensures
            r@ == error_message(*self),
    {
        let mut out: Vec<char> = Vec::new();
        match self {
            AppError::NotGitRepository => {
                push_str(&mut out, "Not a git repository (or any parent up to /)");
            },
            AppError::GitNotFound => {
                push_str(
                    &mut out,
                    "Git command not found. Please install Git or specify path with --git-path or settings.toml/--config.",
                );
            },
            AppError::UnknownRevision(r) => {
                push_str(&mut out, "Unknown revision '");
                push_str(&mut out, r.as_str());
                push_str(&mut out, "'");
            },
            AppError::FileGetFailed { path, commit } => {
                push_str(&mut out, "Failed to get file '");
                push_str(&mut out, path.as_str());
                push_str(&mut out, "' from commit ");
                push_str(&mut out, commit.as_str());
            },
            AppError::OutputExists(p) => {
                push_str(&mut out, "Output directory '");
                push_str(&mut out, p.as_str());
                push_str(&mut out, "' already exists. Use --force to overwrite.");
            },
            AppError::ConfigReadFailed { path, detail } => {
                push_str(&mut out, "Failed to read config file '");
                push_str(&mut out, path.as_str());
                push_str(&mut out, "': ");
                push_str(&mut out, detail.as_str());
            },
            AppError::MissingRequiredField(f) => {
                push_str(&mut out, "Missing required field '");
                push_str(&mut out, f.as_str());
                push_str(&mut out, "' in config file");
            },
            AppError::InvalidGlobPattern(p) => {
                push_str(&mut out, "Invalid glob pattern '");
                push_str(&mut out, p.as_str());
                push_str(&mut out, "'");
            },
            AppError::ProtectedPath(p) => {
                push_str(&mut out, "Cannot use --force on protected path '");
                push_str(&mut out, p.as_str());
                push_str(&mut out, "'");
            },
            AppError::HostResolveFailed(h) => {
                push_str(&mut out, "Could not resolve host '");
                push_str(&mut out, h.as_str());
                push_str(&mut out, "'");
            },
            AppError::CloneFailed(u) => {
                push_str(&mut out, "Failed to clone repository '");
                push_str(&mut out, u.as_str());
                push_str(&mut out, "'");
            },
            AppError::AuthenticationFailed(u) => {
                push_str(&mut out, "Authentication failed for '");
                push_str(&mut out, u.as_str());
                push_str(&mut out, "'");
            },
            AppError::RemoteRefFetchFailed(r) => {
                push_str(&mut out, "Could not fetch ref '");
                push_str(&mut out, r.as_str());
                push_str(&mut out, "' from remote");
            },
            AppError::GitCommandFailed(m) => {
                push_str(&mut out, "Git command failed: ");
                push_str(&mut out, m.as_str());
            },
            AppError::Io(m) => {
                push_str(&mut out, "IO error: ");
                push_str(&mut out, m.as_str());
            },
            AppError::InvalidFilterStatus(s) => {
                push_str(&mut out, "Invalid filter status: ");
                push_str(&mut out, s.as_str());
            },
            AppError::ThreeWayRequiresBase => {
                push_str(&mut out, "Three-way mode requires --base option");
            },
            AppError::Other(m) => {
                push_str(&mut out, m.as_str());
            },
        }
        let r = string_of(&out);
        assert(r@ =~= error_message(*self));
        r
    }
}

/// How the tool ends.
#[derive(Debug, Clone, Copy, PartialEq, Eq, Structural)]
pub enum ExitCode {
    /// Differences found.
    Success,
    Error,
    /// Nothing differs.
    NoDifference,
    /// Conflicts found in a three-way comparison.
    Conflict,
}

/// The process exit status of an exit code.
pub open spec fn exit_status(c: ExitCode) -> i32 {
    match c {
        ExitCode::Success => 0,
        ExitCode::Error => 1,
        ExitCode::NoDifference => 2,
        ExitCode::Conflict => 3,
    }
}

impl ExitCode {
    /// The process exit status.
    pub fn code(&self) -> (r: i32)
        ensures
            r == exit_status(*self),
    {
        match self {
            ExitCode::Success => 0,
            ExitCode::Error => 1,
            ExitCode::NoDifference => 2,
            ExitCode::Conflict => 3,
        }
    }
}

impl From<ExitCode> for i32 {
    fn from(code: ExitCode) -> (r: i32) {
        code.code()
    }
}

impl vstd::std_specs::convert::FromSpecImpl<ExitCode> for i32 {
    open spec fn obeys_from_spec() -> bool {
        true
    }

    open spec fn from_spec(v: ExitCode) -> i32 {
        exit_status(v)
    }
}

} // verus!
