use gitie::config_management::files::{
    copy_failure_error, get_user_file_path, in_test_dir, join_path, missing_template_error,
    resolve_ai_settings, template_env_var, template_path, user_prompt_paths, Template,
};
use gitie::config_management::settings::TreeSitterConfig;
use gitie::errors::ConfigError;
use gitie::tree_sitter_analyzer::setup::{
    get_java_query_pattern, get_rust_query_pattern, is_cache_valid, languages_to_load,
};

#[test]
fn paths_join_like_pathbuf() {
    assert_eq!(join_path("/home/u", "x"), "/home/u/x");
    assert_eq!(join_path("/home/u/", "x"), "/home/u/x");
    assert_eq!(join_path("/home/u", "/etc/x"), "/etc/x");
    assert_eq!(join_path("", "x"), "x");
    assert_eq!(get_user_file_path("/home/u", "config.toml"), "/home/u/.config/gitie/config.toml");
    let p = std::path::PathBuf::from("/home/u").join(".config/gitie").join("commit-prompt");
    assert_eq!(get_user_file_path("/home/u", "commit-prompt"), p.to_string_lossy());
}

#[test]
fn prompt_paths_by_kind() {
    let v = user_prompt_paths("/c", "/e");
    assert_eq!(v, vec![("commit".to_string(), "/c".to_string()), ("explanation".to_string(), "/e".to_string())]);
}

#[test]
fn templates_by_environment() {
    assert!(in_test_dir("/repo/target/test_temp_data/run1"));
    assert!(!in_test_dir("/repo"));
    assert_eq!(template_env_var(Template::CommitPrompt, true), "GITIE_ASSETS_PROMPT");
    assert_eq!(template_env_var(Template::CommitPrompt, false), "GITIE_ASSETS_COMMIT_PROMPT");
    assert_eq!(template_env_var(Template::Config, false), "GITIE_ASSETS_CONFIG");
    assert_eq!(template_path(Template::Config, false, None, "/cwd"), "assets/config.example.toml");
    assert_eq!(template_path(Template::Config, true, None, "/cwd"), "/cwd/assets/config.example.toml");
    assert_eq!(template_path(Template::CommitPrompt, true, None, "/cwd"), "/cwd/test_assets/commit-prompt");
    assert_eq!(template_path(Template::ExplanationPrompt, false, None, "/cwd"), "assets/explanation-prompt");
    assert_eq!(
        template_path(Template::ExplanationPrompt, true, Some("/x/e".to_string()), "/cwd"),
        "/x/e"
    );
}

#[test]
fn template_errors() {
    match missing_template_error(Template::CommitPrompt, "/a/p") {
        ConfigError::FileRead(what, why) => {
            assert_eq!(what, "Commit prompt template not found at /a/p");
            assert_eq!(why, "Commit prompt template file not found");
        }
        _ => panic!("expected a read error"),
    }
    let e = copy_failure_error(Template::Config, "/from", "/to", "denied".to_string());
    assert_eq!(
        e.message(),
        "Failed to write to path 'Failed to copy source config file /from to target config file /to': denied"
    );
    match copy_failure_error(Template::ExplanationPrompt, "a", "b", "x".to_string()) {
        ConfigError::FileWrite(what, _) => assert_eq!(
            what,
            "Failed to copy source explanation prompt file a to target prompt file b"
        ),
        _ => panic!("expected a write error"),
    }
}

#[test]
fn ai_settings_defaults_and_placeholder() {
    let s = resolve_ai_settings(None, None, None);
    assert_eq!(s.api_url, "http://localhost:11434/v1/chat/completions");
    assert_eq!(s.model_name, "qwen3:32b-q8_0");
    assert_eq!(s.api_key, None);
    let s = resolve_ai_settings(Some("http://x".to_string()), Some("m".to_string()), Some("YOUR_API_KEY_IF_NEEDED".to_string()));
    assert_eq!(s.api_url, "http://x");
    assert_eq!(s.model_name, "m");
    assert_eq!(s.api_key, None);
    assert_eq!(resolve_ai_settings(None, None, Some(String::new())).api_key, None);
    assert_eq!(resolve_ai_settings(None, None, Some("k1".to_string())).api_key, Some("k1".to_string()));
}

#[test]
fn grammars_to_load() {
    let c = TreeSitterConfig::default_config();
    assert_eq!(languages_to_load(&c), vec!["rust", "java", "python", "go"]);
    let c = TreeSitterConfig { languages: vec!["go".to_string()], cache_enabled: false, analysis_depth: "deep".to_string() };
    assert_eq!(languages_to_load(&c), vec!["rust", "java", "go"]);
    let c = TreeSitterConfig { languages: vec![], cache_enabled: true, analysis_depth: "deep".to_string() };
    assert_eq!(languages_to_load(&c), vec!["rust", "java"]);
}

#[test]
fn cache_reuse_rules() {
    let on = TreeSitterConfig::default_config();
    let off = TreeSitterConfig { languages: vec![], cache_enabled: false, analysis_depth: "medium".to_string() };
    let h = "abc".to_string();
    assert!(is_cache_valid(&on, Some(&h), "abc"));
    assert!(!is_cache_valid(&on, Some(&h), "abd"));
    assert!(!is_cache_valid(&on, None, "abc"));
    assert!(!is_cache_valid(&off, Some(&h), "abc"));
}

#[test]
fn analyzer_queries() {
    assert!(get_rust_query_pattern().contains("(function_item name: (identifier) @function.name)"));
    assert!(get_java_query_pattern().contains("(import_declaration (asterisk) @import.wildcard) @import.declaration"));
}
