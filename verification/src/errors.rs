//! Errors of Git invocations and of the syntax analysis, with the messages
//! that are shown to the user.

use vstd::prelude::*;
use vstd::string::StringExecFns;
use crate::text::{extend_str, extend_string, int_decimal, push_i32_decimal, to_string};

verus! {

/// Errors of Git invocations.
#[derive(Debug)]
pub enum GitError {
    /// A command whose output was captured failed.
    CommandFailed {
        command: String,
        status_code: Option<i32>,
        stdout: String,
        stderr: String,
    },
    /// A command whose output went straight to the terminal failed.
    PassthroughFailed { command: String, status_code: Option<i32> },
    /// The diff could not be produced; holds the underlying I/O error's message.
    DiffError(String),
    /// The working directory is not inside a repository.
    NotARepository,
    /// Nothing is staged for commit.
    NoStagedChanges,
    /// Any other Git error.
    Other(String),
}

/// ` with exit code N` when a status code is known, else nothing.
pub open spec fn exit_code_suffix(code: Option<i32>) -> Seq<char> {
    match code {
        Some(c) => " with exit code "@ + int_decimal(c as int),
        None => seq![],
    }
}

/// The message shown for a Git error.
pub open spec fn git_error_text(e: GitError) -> Seq<char> {
    match e {
        GitError::CommandFailed { command, status_code, stdout, stderr } => "Git command '"@
            + command@ + "' failed"@ + exit_code_suffix(status_code) + (if stdout@.len() > 0 {
            "\nStdout:\n"@ + stdout@
        } else {
            seq![]
        }) + (if stderr@.len() > 0 {
            "\nStderr:\n"@ + stderr@
        } else {
            seq![]
        }),
        GitError::PassthroughFailed { command, status_code } => "Git passthrough command '"@
            + command@ + "' failed"@ + exit_code_suffix(status_code),
        GitError::DiffError(msg) => "Failed to get git diff: "@ + msg@,
        GitError::NotARepository => "Not a git repository (or any of the parent directories)."@,
        GitError::NoStagedChanges => "No changes staged for commit."@,
        GitError::Other(s) => "Git error: "@ + s@,
    }
}

fn push_exit_code(v: &mut Vec<char>, code: Option<i32>)
    ensures
        final(v)@ == old(v)@ + exit_code_suffix(code),
{
    match code {
        Some(c) => {
            let ghost v0 = v@;
            extend_str(v, " with exit code ");
            push_i32_decimal(v, c);
            assert(v@ =~= v0 + exit_code_suffix(code));
        },
        None => {
            assert(v@ =~= v@ + exit_code_suffix(code));
        },
    }
}

impl GitError {
    /// The message shown for this error.
    pub fn message(&self) -> (res: String)
        ensures
            res@ == git_error_text(*self),
    {
        let mut v: Vec<char> = Vec::new();
        match self {
            GitError::CommandFailed { command, status_code, stdout, stderr } => {
                extend_str(&mut v, "Git command '");
                extend_string(&mut v, command);
                extend_str(&mut v, "' failed");
                push_exit_code(&mut v, *status_code);
                let ghost v1 = v@;
                if !stdout.as_str().is_empty() {
                    extend_str(&mut v, "\nStdout:\n");
                    extend_string(&mut v, stdout);
                    assert(v@ =~= v1 + ("\nStdout:\n"@ + stdout@));
                } else {
                    assert(v@ =~= v1 + Seq::<char>::empty());
                }
                let ghost v2 = v@;
                if !stderr.as_str().is_empty() {
                    extend_str(&mut v, "\nStderr:\n");
                    extend_string(&mut v, stderr);
                    assert(v@ =~= v2 + ("\nStderr:\n"@ + stderr@));
                } else {
                    assert(v@ =~= v2 + Seq::<char>::empty());
                }
            },
            GitError::PassthroughFailed { command, status_code } => {
                extend_str(&mut v, "Git passthrough command '");
                extend_string(&mut v, command);
                extend_str(&mut v, "' failed");
                push_exit_code(&mut v, *status_code);
            },
            GitError::DiffError(msg) => {
                extend_str(&mut v, "Failed to get git diff: ");
                extend_string(&mut v, msg);
            },
            GitError::NotARepository => {
                extend_str(&mut v, "Not a git repository (or any of the parent directories).");
            },
            GitError::NoStagedChanges => {
                extend_str(&mut v, "No changes staged for commit.");
            },
            GitError::Other(s) => {
                extend_str(&mut v, "Git error: ");
                extend_string(&mut v, s);
            },
        }
        to_string(&v)
    }
}

/// Errors of the syntax analysis.
#[derive(Debug)]
pub enum TreeSitterError {
    UnsupportedLanguage(String),
    ParseError(String),
    QueryError(String),
    CacheError(String),
    InitializationError(String),
    AnalysisTimeout(String),
    /// An I/O error; holds the underlying error's message.
    IoError(String),
}

/// The message shown for a syntax-analysis error.
pub open spec fn tree_sitter_error_text(e: TreeSitterError) -> Seq<char> {
    match e {
        TreeSitterError::UnsupportedLanguage(s) => "Unsupported language: "@ + s@,
        TreeSitterError::ParseError(s) => "Parse error: "@ + s@,
        TreeSitterError::QueryError(s) => "Query error: "@ + s@,
        TreeSitterError::CacheError(s) => "Cache error: "@ + s@,
        TreeSitterError::InitializationError(s) => "Initialization error: "@ + s@,
        TreeSitterError::AnalysisTimeout(s) => "Analysis timeout: "@ + s@,
        TreeSitterError::IoError(s) => "I/O error: "@ + s@,
    }
}

impl TreeSitterError {
    /// The message shown for this error.
    pub fn message(&self) -> (res: String)
        ensures
            res@ == tree_sitter_error_text(*self),
    {
        let mut v: Vec<char> = Vec::new();
        match self {
            TreeSitterError::UnsupportedLanguage(s) => {
                extend_str(&mut v, "Unsupported language: ");
                extend_string(&mut v, s);
            },
            TreeSitterError::ParseError(s) => {
                extend_str(&mut v, "Parse error: ");
                extend_string(&mut v, s);
            },
            TreeSitterError::QueryError(s) => {
                extend_str(&mut v, "Query error: ");
                extend_string(&mut v, s);
            },
            TreeSitterError::CacheError(s) => {
                extend_str(&mut v, "Cache error: ");
                extend_string(&mut v, s);
            },
            TreeSitterError::InitializationError(s) => {
                extend_str(&mut v, "Initialization error: ");
                extend_string(&mut v, s);
            },
            TreeSitterError::AnalysisTimeout(s) => {
                extend_str(&mut v, "Analysis timeout: ");
                extend_string(&mut v, s);
            },
            TreeSitterError::IoError(s) => {
                extend_str(&mut v, "I/O error: ");
                extend_string(&mut v, s);
            },
        }
        to_string(&v)
    }
}

/// Errors of the configuration. The underlying I/O and TOML errors are held
/// as their messages.
#[derive(Debug)]
pub enum ConfigError {
    FileRead(String, String),
    FileWrite(String, String),
    TomlParse(String, String),
    PromptFileMissing(String),
    FieldMissing(String),
    GitConfigRead(String, String),
}

/// The message shown for a configuration error.
pub open spec fn config_error_text(e: ConfigError) -> Seq<char> {
    match e {
        ConfigError::FileRead(file, err) => "Failed to read file '"@ + file@ + "': "@ + err@,
        ConfigError::FileWrite(path, err) => "Failed to write to path '"@ + path@ + "': "@ + err@,
        ConfigError::TomlParse(file, err) => "Failed to parse TOML from file '"@ + file@ + "': "@
            + err@,
        ConfigError::PromptFileMissing(file) => "Critical prompt file '"@ + file@
            + "' is missing."@,
        ConfigError::FieldMissing(field) => "Required configuration field '"@ + field@
            + "' is missing or invalid"@,
        ConfigError::GitConfigRead(context, err) => "Failed to read Git configuration for "@
            + context@ + ": "@ + err@,
    }
}

/// Appends `<a><s><b><t>` to `v`.
fn push_framed(v: &mut Vec<char>, a: &str, s: &String, b: &str, t: &String)
    ensures
        final(v)@ == old(v)@ + a@ + s@ + b@ + t@,
{
    extend_str(v, a);
    extend_string(v, s);
    extend_str(v, b);
    extend_string(v, t);
}

/// Appends `<a><s><b>` to `v`.
fn push_around(v: &mut Vec<char>, a: &str, s: &String, b: &str)
    ensures
        final(v)@ == old(v)@ + a@ + s@ + b@,
{
    extend_str(v, a);
    extend_string(v, s);
    extend_str(v, b);
}

impl ConfigError {
    /// The message shown for this error.
    pub fn message(&self) -> (res: String)
        ensures
            res@ == config_error_text(*self),
    {
        let mut v: Vec<char> = Vec::new();
        match self {
            ConfigError::FileRead(file, err) => push_framed(&mut v, "Failed to read file '", file, "': ", err),
            ConfigError::FileWrite(path, err) => push_framed(&mut v, "Failed to write to path '", path, "': ", err),
            ConfigError::TomlParse(file, err) => push_framed(
                &mut v,
                "Failed to parse TOML from file '",
                file,
                "': ",
                err,
            ),
            ConfigError::PromptFileMissing(file) => push_around(
                &mut v,
                "Critical prompt file '",
                file,
                "' is missing.",
            ),
            ConfigError::FieldMissing(field) => push_around(
                &mut v,
                "Required configuration field '",
                field,
                "' is missing or invalid",
            ),
            ConfigError::GitConfigRead(context, err) => push_framed(
                &mut v,
                "Failed to read Git configuration for ",
                context,
                ": ",
                err,
            ),
        }
        assert(v@ =~= config_error_text(*self));
        to_string(&v)
    }
}

/// Errors of the AI service. The underlying request and parse errors are
/// held as their messages, and an HTTP status as its display form (code and
/// reason).
#[derive(Debug)]
pub enum AIError {
    RequestFailed(String),
    ResponseParseFailed(String),
    ApiResponseError(String, String),
    NoChoiceInResponse,
    EmptyMessage,
    ExplanationGenerationFailed(String),
    ExplainerConfigurationError(String),
    ExplainerNetworkError(String),
}

/// The message shown for an AI error.
pub open spec fn ai_error_text(e: AIError) -> Seq<char> {
    match e {
        AIError::RequestFailed(err) => "AI API request failed: "@ + err@,
        AIError::ResponseParseFailed(err) => "Failed to parse AI API JSON response: "@ + err@,
        AIError::ApiResponseError(status, body) => "AI API responded with error "@ + status@
            + ": "@ + body@,
        AIError::NoChoiceInResponse => "AI API response contained no choices."@,
        AIError::EmptyMessage => "AI returned an empty message."@,
        AIError::ExplanationGenerationFailed(s) => "AI explanation generation failed: "@ + s@,
        AIError::ExplainerConfigurationError(s) => "AI explainer configuration error: "@ + s@,
        AIError::ExplainerNetworkError(s) => "AI explainer network error: "@ + s@,
    }
}

impl AIError {
    /// The message shown for this error.
    pub fn message(&self) -> (res: String)
        ensures
            res@ == ai_error_text(*self),
    {
        let mut v: Vec<char> = Vec::new();
        match self {
            AIError::RequestFailed(err) => {
                extend_str(&mut v, "AI API request failed: ");
                extend_string(&mut v, err);
            },
            AIError::ResponseParseFailed(err) => {
                extend_str(&mut v, "Failed to parse AI API JSON response: ");
                extend_string(&mut v, err);
            },
            AIError::ApiResponseError(status, body) => push_framed(
                &mut v,
                "AI API responded with error ",
                status,
                ": ",
                body,
            ),
            AIError::NoChoiceInResponse => extend_str(&mut v, "AI API response contained no choices."),
            AIError::EmptyMessage => extend_str(&mut v, "AI returned an empty message."),
            AIError::ExplanationGenerationFailed(s) => {
                extend_str(&mut v, "AI explanation generation failed: ");
                extend_string(&mut v, s);
            },
            AIError::ExplainerConfigurationError(s) => {
                extend_str(&mut v, "AI explainer configuration error: ");
                extend_string(&mut v, s);
            },
            AIError::ExplainerNetworkError(s) => {
                extend_str(&mut v, "AI explainer network error: ");
                extend_string(&mut v, s);
            },
        }
        assert(v@ =~= ai_error_text(*self));
        to_string(&v)
    }
}

/// Errors of the application as a whole.
#[derive(Debug)]
pub enum AppError {
    Config(ConfigError),
    Git(GitError),
    AI(AIError),
    TreeSitter(TreeSitterError),
    /// An I/O error, with what was being done and the error's message.
    IO(String, String),
    Generic(String),
}

/// The message shown for an application error.
pub open spec fn app_error_text(e: AppError) -> Seq<char> {
    match e {
        AppError::Config(c) => "Configuration error: "@ + config_error_text(c),
        AppError::Git(g) => "Git command error: "@ + git_error_text(g),
        AppError::AI(a) => "AI interaction error: "@ + ai_error_text(a),
        AppError::TreeSitter(t) => "Tree-sitter error: "@ + tree_sitter_error_text(t),
        AppError::IO(context, err) => "I/O error while "@ + context@ + ": "@ + err@,
        AppError::Generic(s) => "Application error: "@ + s@,
    }
}

impl AppError {
    /// The message shown for this error.
    pub fn message(&self) -> (res: String)
        ensures
            res@ == app_error_text(*self),
    {
        let mut v: Vec<char> = Vec::new();
        match self {
            AppError::Config(c) => {
                extend_str(&mut v, "Configuration error: ");
                extend_string(&mut v, &c.message());
            },
            AppError::Git(g) => {
                extend_str(&mut v, "Git command error: ");
                extend_string(&mut v, &g.message());
            },
            AppError::AI(a) => {
                extend_str(&mut v, "AI interaction error: ");
                extend_string(&mut v, &a.message());
            },
            AppError::TreeSitter(t) => {
                extend_str(&mut v, "Tree-sitter error: ");
                extend_string(&mut v, &t.message());
            },
            AppError::IO(context, err) => push_framed(&mut v, "I/O error while ", context, ": ", err),
            AppError::Generic(s) => {
                extend_str(&mut v, "Application error: ");
                extend_string(&mut v, s);
            },
        }
        assert(v@ =~= app_error_text(*self));
        to_string(&v)
    }

    /// An I/O error with the default context, `I/O operation failed`.
    pub fn io_failure(message: String) -> (res: AppError)
        ensures
            res matches AppError::IO(context, err) && context@ == "I/O operation failed"@ && err@
                == message@,
    {
        AppError::IO(String::from_str("I/O operation failed"), message)
    }
}

impl From<ConfigError> for AppError {
    fn from(err: ConfigError) -> (res: AppError) {
        AppError::Config(err)
    }
}

impl vstd::std_specs::convert::FromSpecImpl<ConfigError> for AppError {
    open spec fn obeys_from_spec() -> bool {
        true
    }

    open spec fn from_spec(err: ConfigError) -> AppError {
        AppError::Config(err)
    }
}

impl From<GitError> for AppError {
    fn from(err: GitError) -> (res: AppError) {
        AppError::Git(err)
    }
}

impl vstd::std_specs::convert::FromSpecImpl<GitError> for AppError {
    open spec fn obeys_from_spec() -> bool {
        true
    }

    open spec fn from_spec(err: GitError) -> AppError {
        AppError::Git(err)
    }
}

impl From<AIError> for AppError {
    fn from(err: AIError) -> (res: AppError) {
        AppError::AI(err)
    }
}

impl vstd::std_specs::convert::FromSpecImpl<AIError> for AppError {
    open spec fn obeys_from_spec() -> bool {
        true
    }

    open spec fn from_spec(err: AIError) -> AppError {
        AppError::AI(err)
    }
}

impl From<TreeSitterError> for AppError {
    fn from(err: TreeSitterError) -> (res: AppError) {
        AppError::TreeSitter(err)
    }
}

impl vstd::std_specs::convert::FromSpecImpl<TreeSitterError> for AppError {
    open spec fn obeys_from_spec() -> bool {
        true
    }

    open spec fn from_spec(err: TreeSitterError) -> AppError {
        AppError::TreeSitter(err)
    }
}

} // verus!
