use gitie::errors::{AIError, AppError, ConfigError, GitError, TreeSitterError};

#[test]
fn test_git_error_display() {
    let io_err_for_diff = std::io::Error::new(std::io::ErrorKind::Other, "diff generation failed");
    let err_diff = GitError::DiffError(io_err_for_diff.to_string());
    assert_eq!(err_diff.message(), "Failed to get git diff: diff generation failed");

    let err_not_repo = GitError::NotARepository;
    assert_eq!(
        err_not_repo.message(),
        "Not a git repository (or any of the parent directories)."
    );

    let err_no_staged = GitError::NoStagedChanges;
    assert_eq!(err_no_staged.message(), "No changes staged for commit.");

    let err_cmd_failed_simple = GitError::CommandFailed {
        command: "git version".to_string(),
        status_code: Some(128),
        stdout: "".to_string(),
        stderr: "fatal error".to_string(),
    };
    assert_eq!(
        err_cmd_failed_simple.message(),
        "Git command 'git version' failed with exit code 128\nStderr:\nfatal error"
    );

    let err_cmd_failed_full = GitError::CommandFailed {
        command: "git status".to_string(),
        status_code: Some(0),
        stdout: "on branch master".to_string(),
        stderr: "warning".to_string(),
    };
    assert_eq!(
        err_cmd_failed_full.message(),
        "Git command 'git status' failed with exit code 0\nStdout:\non branch master\nStderr:\nwarning"
    );

    let err_passthrough_failed = GitError::PassthroughFailed {
        command: "git push".to_string(),
        status_code: Some(1),
    };
    assert_eq!(
        err_passthrough_failed.message(),
        "Git passthrough command 'git push' failed with exit code 1"
    );

    let err_other_git = GitError::Other("Some other issue".to_string());
    assert_eq!(err_other_git.message(), "Git error: Some other issue");
}

#[test]
fn git_error_negative_and_missing_exit_codes() {
    let e = GitError::PassthroughFailed { command: "git x".to_string(), status_code: Some(-3) };
    assert_eq!(e.message(), "Git passthrough command 'git x' failed with exit code -3");
    let e = GitError::CommandFailed {
        command: "git y".to_string(),
        status_code: None,
        stdout: String::new(),
        stderr: String::new(),
    };
    assert_eq!(e.message(), "Git command 'git y' failed");
}

#[test]
fn tree_sitter_error_messages() {
    assert_eq!(
        TreeSitterError::UnsupportedLanguage("cobol".to_string()).message(),
        "Unsupported language: cobol"
    );
    assert_eq!(TreeSitterError::ParseError("bad".to_string()).message(), "Parse error: bad");
    assert_eq!(TreeSitterError::QueryError("q".to_string()).message(), "Query error: q");
    assert_eq!(TreeSitterError::CacheError("c".to_string()).message(), "Cache error: c");
    assert_eq!(
        TreeSitterError::InitializationError("i".to_string()).message(),
        "Initialization error: i"
    );
    assert_eq!(TreeSitterError::AnalysisTimeout("t".to_string()).message(), "Analysis timeout: t");
    assert_eq!(TreeSitterError::IoError("gone".to_string()).message(), "I/O error: gone");
}

fn mock_reqwest_error() -> reqwest::Error {
    let rt = tokio::runtime::Runtime::new().unwrap();
    rt.block_on(async { reqwest::Client::new().get("http://0.0.0.0.0.0.1").send().await.unwrap_err() })
}

fn mock_toml_error() -> toml::de::Error {
    toml::from_str::<toml::Value>("invalid_toml").err().unwrap()
}

#[test]
fn test_config_error_display() {
    let file_name = "test_config.json".to_string();
    let toml_file_name = "test_config.toml".to_string();
    let io_err = std::io::Error::new(std::io::ErrorKind::NotFound, "file not found");
    let toml_err = mock_toml_error();

    let err_file_read = ConfigError::FileRead(file_name.clone(), io_err.to_string());
    assert_eq!(err_file_read.message(), "Failed to read file 'test_config.json': file not found");

    let err_toml_parse = ConfigError::TomlParse(toml_file_name.clone(), toml_err.to_string());
    assert!(err_toml_parse
        .message()
        .starts_with("Failed to parse TOML from file 'test_config.toml': "));

    let err_prompt_missing = ConfigError::PromptFileMissing("assets/my_prompt".to_string());
    assert_eq!(err_prompt_missing.message(), "Critical prompt file 'assets/my_prompt' is missing.");

    let git_config_io_err =
        std::io::Error::new(std::io::ErrorKind::PermissionDenied, "permission denied");
    let err_git_config_read =
        ConfigError::GitConfigRead("user name".to_string(), git_config_io_err.to_string());
    assert_eq!(
        err_git_config_read.message(),
        "Failed to read Git configuration for user name: permission denied"
    );

    let err_field_missing = ConfigError::FieldMissing("model_name".to_string());
    assert_eq!(
        err_field_missing.message(),
        "Required configuration field 'model_name' is missing or invalid"
    );
}

#[test]
fn test_ai_error_display() {
    let req_err = mock_reqwest_error();
    let err_request_failed = AIError::RequestFailed(req_err.to_string());
    assert!(err_request_failed.message().starts_with("AI API request failed: "));

    let parse_err = mock_reqwest_error();
    let err_response_parse_failed = AIError::ResponseParseFailed(parse_err.to_string());
    assert!(err_response_parse_failed
        .message()
        .starts_with("Failed to parse AI API JSON response: "));

    let err_api_response = AIError::ApiResponseError(
        reqwest::StatusCode::INTERNAL_SERVER_ERROR.to_string(),
        "Server meltdown".to_string(),
    );
    assert_eq!(
        err_api_response.message(),
        "AI API responded with error 500 Internal Server Error: Server meltdown"
    );

    let err_no_choice = AIError::NoChoiceInResponse;
    assert_eq!(err_no_choice.message(), "AI API response contained no choices.");

    let err_empty_message = AIError::EmptyMessage;
    assert_eq!(err_empty_message.message(), "AI returned an empty message.");

    let err_expl_gen = AIError::ExplanationGenerationFailed("model unavailable".to_string());
    assert_eq!(err_expl_gen.message(), "AI explanation generation failed: model unavailable");

    let err_expl_conf = AIError::ExplainerConfigurationError("missing prompt".to_string());
    assert_eq!(err_expl_conf.message(), "AI explainer configuration error: missing prompt");

    let err_expl_net = AIError::ExplainerNetworkError("connection refused".to_string());
    assert_eq!(err_expl_net.message(), "AI explainer network error: connection refused");
}

#[test]
fn test_app_error_display() {
    let config_err = ConfigError::PromptFileMissing("prompts/sys".to_string());
    let app_config_err = AppError::from(config_err);
    assert_eq!(
        app_config_err.message(),
        "Configuration error: Critical prompt file 'prompts/sys' is missing."
    );

    let git_err = GitError::NotARepository;
    let app_git_err = AppError::from(git_err);
    assert_eq!(
        app_git_err.message(),
        "Git command error: Not a git repository (or any of the parent directories)."
    );

    let ai_err = AIError::EmptyMessage;
    let app_ai_err = AppError::from(ai_err);
    assert_eq!(app_ai_err.message(), "AI interaction error: AI returned an empty message.");

    let io_err = std::io::Error::new(std::io::ErrorKind::BrokenPipe, "pipe broke");
    let app_io_err = AppError::io_failure(io_err.to_string());
    assert_eq!(app_io_err.message(), "I/O error while I/O operation failed: pipe broke");

    let app_generic_err = AppError::Generic("Something went wrong".to_string());
    assert_eq!(app_generic_err.message(), "Application error: Something went wrong");
}

#[test]
fn app_error_wraps_tree_sitter_errors() {
    let e = AppError::from(TreeSitterError::ParseError("bad hunk".to_string()));
    assert_eq!(e.message(), "Tree-sitter error: Parse error: bad hunk");
    let e = AppError::from(ConfigError::FileWrite("out.toml".to_string(), "disk full".to_string()));
    assert_eq!(e.message(), "Configuration error: Failed to write to path 'out.toml': disk full");
}
