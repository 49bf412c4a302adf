//! Where the user's configuration lives, where its templates come from,
//! and the settings the AI section resolves to.

use vstd::prelude::*;
use crate::errors::ConfigError;
use crate::text::{chars_of, contains_seq, contains_str, copy_strings, extend_str, string_views, to_string};

verus! {

/// The directories searched for prompt files: the configured ones, in
/// order, then `assets`.
pub fn get_prompt_directories(prompts: &Vec<String>) -> (res: Vec<String>)
    ensures
        string_views(res@) == string_views(prompts@).push("assets"@),
{
    let mut dirs = copy_strings(prompts);
    let ghost before = dirs@;
    dirs.push(String::from_str("assets"));
    assert(string_views(dirs@) =~= string_views(before).push("assets"@));
    dirs
}

/// The user's configuration directory, below the home directory.
pub const USER_CONFIG_DIR: &'static str = ".config/gitie";

/// The configuration file's name.
pub const USER_CONFIG_FILE_NAME: &'static str = "config.toml";

/// The commit prompt file's name.
pub const USER_COMMIT_PROMPT_FILE_NAME: &'static str = "commit-prompt";

/// The explanation prompt file's name (the same file as the commit prompt).
pub const USER_EXPLANATION_PROMPT_FILE_NAME: &'static str = "commit-prompt";

/// The configuration template.
pub const CONFIG_EXAMPLE_FILE_NAME: &'static str = "assets/config.example.toml";

/// The commit prompt template.
pub const COMMIT_PROMPT_EXAMPLE_FILE_NAME: &'static str = "assets/commit-prompt";

/// The explanation prompt template.
pub const EXPLANATION_PROMPT_EXAMPLE_FILE_NAME: &'static str = "assets/explanation-prompt";

/// `base` extended by `p` as a Unix `PathBuf::push` extends it: an absolute
/// `p` replaces `base`; otherwise a `/` separates the two where `base` is
/// not empty and does not already end in one.
pub open spec fn path_join(base: Seq<char>, p: Seq<char>) -> Seq<char> {
    if p.len() > 0 && p[0] == '/' {
        p
    } else if base.len() == 0 {
        p
    } else if base.last() == '/' {
        base + p
    } else {
        base + "/"@ + p
    }
}

/// Joins two paths (see `path_join`).
pub fn join_path(base: &str, p: &str) -> (res: String)
    ensures
        res@ == path_join(base@, p@),
{
    let b = chars_of(base);
    let pv = chars_of(p);
    if pv.len() > 0 && pv[0] == '/' {
        return to_string(&pv);
    }
    if b.len() == 0 {
        return to_string(&pv);
    }
    let mut v = b;
    if v[v.len() - 1] != '/' {
        extend_str(&mut v, "/");
    }
    extend_str(&mut v, p);
    to_string(&v)
}

/// The path of a file of the user's configuration directory.
pub open spec fn user_file(home: Seq<char>, filename: Seq<char>) -> Seq<char> {
    path_join(path_join(home, USER_CONFIG_DIR@), filename)
}

/// The path of a file of the user's configuration directory, below the
/// given home directory.
pub fn get_user_file_path(home: &str, filename: &str) -> (res: String)
    ensures
        res@ == user_file(home@, filename@),
{
    let dir = join_path(home, USER_CONFIG_DIR);
    join_path(dir.as_str(), filename)
}

/// The prompt files of the user: each prompt kind with its path.
pub fn user_prompt_paths(commit_prompt_path: &str, explanation_prompt_path: &str) -> (res: Vec<
    (String, String),
>)
    ensures
        res@.len() == 2,
        res@[0].0@ == "commit"@ && res@[0].1@ == commit_prompt_path@,
        res@[1].0@ == "explanation"@ && res@[1].1@ == explanation_prompt_path@,
{
    let mut res: Vec<(String, String)> = Vec::new();
    res.push((String::from_str("commit"), commit_prompt_path.to_string()));
    res.push((String::from_str("explanation"), explanation_prompt_path.to_string()));
    res
}

/// Whether the working directory is one of the test runs' scratch
/// directories.
pub open spec fn is_test_dir(cwd: Seq<char>) -> bool {
    contains_seq(cwd, "target/test_temp_data"@)
}

/// Whether the working directory is a test scratch directory (see
/// `is_test_dir`).
pub fn in_test_dir(cwd: &str) -> (res: bool)
    ensures
        res == is_test_dir(cwd@),
{
    let v = chars_of(cwd);
    contains_str(v.as_slice(), "target/test_temp_data")
}

/// The files copied into a new user configuration.
#[derive(Debug, Clone, Copy, PartialEq, Eq, Structural)]
pub enum Template {
    Config,
    CommitPrompt,
    ExplanationPrompt,
}

/// The environment variable that names a template's location.
pub open spec fn template_variable(t: Template, in_test: bool) -> Seq<char> {
    match t {
        Template::Config => "GITIE_ASSETS_CONFIG"@,
        Template::CommitPrompt => if in_test {
            "GITIE_ASSETS_PROMPT"@
        } else {
            "GITIE_ASSETS_COMMIT_PROMPT"@
        },
        Template::ExplanationPrompt => "GITIE_ASSETS_EXPLANATION_PROMPT"@,
    }
}

/// The environment variable that names a template's location: the commit
/// prompt's is `GITIE_ASSETS_PROMPT` in test runs and
/// `GITIE_ASSETS_COMMIT_PROMPT` otherwise.
pub fn template_env_var(t: Template, in_test: bool) -> (res: &'static str)
    ensures
        res@ == template_variable(t, in_test),
{
    match t {
        Template::Config => "GITIE_ASSETS_CONFIG",
        Template::CommitPrompt => if in_test {
            "GITIE_ASSETS_PROMPT"
        } else {
            "GITIE_ASSETS_COMMIT_PROMPT"
        },
        Template::ExplanationPrompt => "GITIE_ASSETS_EXPLANATION_PROMPT",
    }
}

/// Where a template is taken from when its variable is not set: below the
/// working directory in test runs, else relative to where the tool runs.
pub open spec fn template_fallback(t: Template, in_test: bool, cwd: Seq<char>) -> Seq<char> {
    match t {
        Template::Config => if in_test {
            path_join(cwd, CONFIG_EXAMPLE_FILE_NAME@)
        } else {
            CONFIG_EXAMPLE_FILE_NAME@
        },
        Template::CommitPrompt => if in_test {
            path_join(cwd, "test_assets/commit-prompt"@)
        } else {
            COMMIT_PROMPT_EXAMPLE_FILE_NAME@
        },
        Template::ExplanationPrompt => if in_test {
            path_join(cwd, "test_assets/explanation-prompt"@)
        } else {
            EXPLANATION_PROMPT_EXAMPLE_FILE_NAME@
        },
    }
}

/// Where a template is taken from: the value of its variable where it is
/// set, else its fallback.
pub open spec fn template_location(
    t: Template,
    in_test: bool,
    variable: Option<Seq<char>>,
    cwd: Seq<char>,
) -> Seq<char> {
    match variable {
        Some(v) => v,
        None => template_fallback(t, in_test, cwd),
    }
}

/// Where a template is taken from (see `template_location`), given the
/// value of its variable, if set, and the working directory.
pub fn template_path(t: Template, in_test: bool, variable: Option<String>, cwd: &str) -> (res:
    String)
    ensures
        res@ == template_location(
            t,
            in_test,
            match variable {
                Some(v) => Some(v@),
                None => None,
            },
            cwd@,
        ),
{
    match variable {
        Some(v) => v,
        None => match t {
            Template::Config => if in_test {
                join_path(cwd, CONFIG_EXAMPLE_FILE_NAME)
            } else {
                CONFIG_EXAMPLE_FILE_NAME.to_string()
            },
            Template::CommitPrompt => if in_test {
                join_path(cwd, "test_assets/commit-prompt")
            } else {
                COMMIT_PROMPT_EXAMPLE_FILE_NAME.to_string()
            },
            Template::ExplanationPrompt => if in_test {
                join_path(cwd, "test_assets/explanation-prompt")
            } else {
                EXPLANATION_PROMPT_EXAMPLE_FILE_NAME.to_string()
            },
        },
    }
}

/// The name under which a template is reported.
pub open spec fn template_label(t: Template) -> Seq<char> {
    match t {
        Template::Config => "Config template"@,
        Template::CommitPrompt => "Commit prompt template"@,
        Template::ExplanationPrompt => "Explanation prompt template"@,
    }
}

/// The error for a template that is not where it should be.
pub open spec fn missing_template(t: Template, path: Seq<char>) -> (Seq<char>, Seq<char>) {
    (
        template_label(t) + " not found at "@ + path,
        template_label(t) + " file not found"@,
    )
}

/// The error for a template that is not at `path`: a read error naming the
/// template and its path.
pub fn missing_template_error(t: Template, path: &str) -> (res: ConfigError)
    ensures
        res matches ConfigError::FileRead(what, why) && (what@, why@) == missing_template(t, path@),
{
    let label = match t {
        Template::Config => "Config template",
        Template::CommitPrompt => "Commit prompt template",
        Template::ExplanationPrompt => "Explanation prompt template",
    };
    let mut what: Vec<char> = Vec::new();
    extend_str(&mut what, label);
    extend_str(&mut what, " not found at ");
    extend_str(&mut what, path);
    let mut why: Vec<char> = Vec::new();
    extend_str(&mut why, label);
    extend_str(&mut why, " file not found");
    ConfigError::FileRead(to_string(&what), to_string(&why))
}

/// The word naming a copied file in a copy error.
pub open spec fn copied_label(t: Template) -> Seq<char> {
    match t {
        Template::Config => "config"@,
        Template::CommitPrompt => "commit prompt"@,
        Template::ExplanationPrompt => "explanation prompt"@,
    }
}

/// The word naming the target of a copy in a copy error.
pub open spec fn target_label(t: Template) -> Seq<char> {
    match t {
        Template::Config => "config"@,
        Template::CommitPrompt => "prompt"@,
        Template::ExplanationPrompt => "prompt"@,
    }
}

/// The description of a failed copy of a template.
pub open spec fn copy_failure(t: Template, from: Seq<char>, to: Seq<char>) -> Seq<char> {
    "Failed to copy source "@ + copied_label(t) + " file "@ + from + " to target "@ + target_label(
        t,
    ) + " file "@ + to
}

/// The error for a template that could not be copied from `from` to `to`,
/// with the system's reason.
pub fn copy_failure_error(t: Template, from: &str, to: &str, reason: String) -> (res: ConfigError)
    ensures
        res matches ConfigError::FileWrite(what, why) && what@ == copy_failure(t, from@, to@)
            && why@ == reason@,
{
    let (copied, target) = match t {
        Template::Config => ("config", "config"),
        Template::CommitPrompt => ("commit prompt", "prompt"),
        Template::ExplanationPrompt => ("explanation prompt", "prompt"),
    };
    let mut what: Vec<char> = Vec::new();
    extend_str(&mut what, "Failed to copy source ");
    extend_str(&mut what, copied);
    extend_str(&mut what, " file ");
    extend_str(&mut what, from);
    extend_str(&mut what, " to target ");
    extend_str(&mut what, target);
    extend_str(&mut what, " file ");
    extend_str(&mut what, to);
    ConfigError::FileWrite(to_string(&what), reason)
}

/// The AI settings that a configuration file resolves to.
#[derive(Debug)]
pub struct AiSettings {
    pub api_url: String,
    pub model_name: String,
    pub api_key: Option<String>,
}

/// The default endpoint: a local Ollama server.
pub open spec fn default_api_url() -> Seq<char> {
    "http://localhost:11434/v1/chat/completions"@
}

/// The default model.
pub open spec fn default_model_name() -> Seq<char> {
    "qwen3:32b-q8_0"@
}

/// Whether an API key stands for no key: the template's placeholder or
/// the empty string.
pub open spec fn is_placeholder_key(k: Seq<char>) -> bool {
    k == "YOUR_API_KEY_IF_NEEDED"@ || k.len() == 0
}

/// Resolves the AI section of a configuration file: missing entries take
/// the defaults, and a placeholder or empty API key means no key.
pub fn resolve_ai_settings(
    api_url: Option<String>,
    model_name: Option<String>,
    api_key: Option<String>,
) -> (res: AiSettings)
    ensures
        res.api_url@ == match api_url {
            Some(u) => u@,
            None => default_api_url(),
        },
        res.model_name@ == match model_name {
            Some(m) => m@,
            None => default_model_name(),
        },
        match api_key {
            Some(k) => if is_placeholder_key(k@) {
                res.api_key is None
            } else {
                res.api_key matches Some(r) && r@ == k@
            },
            None => res.api_key is None,
        },
{
    let url = match api_url {
        Some(u) => u,
        None => String::from_str("http://localhost:11434/v1/chat/completions"),
    };
    let model = match model_name {
        Some(m) => m,
        None => String::from_str("qwen3:32b-q8_0"),
    };
    let key = match api_key {
        Some(k) => {
            let kv = chars_of(k.as_str());
            if kv.len() == 0 || crate::text::chars_eq_str(kv.as_slice(), "YOUR_API_KEY_IF_NEEDED") {
                None
            } else {
                Some(k)
            }
        },
        None => None,
    };
    AiSettings { api_url: url, model_name: model, api_key: key }
}

} // verus!
