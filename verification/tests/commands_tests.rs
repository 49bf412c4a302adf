use gitie::cli_interface::args::{
    args_contain_tree_sitter, generate_gitie_help, get_tree_sitter_level, should_use_tree_sitter,
    CommitArgs, ReviewArgs,
};
use gitie::command_processing::commit::{
    after_staged_diff, ai_commit_args, final_commit_message, passthrough_commit_args, stages_all,
    StagedDiffDecision,
};
use gitie::command_processing::review::{
    answer_continues_commit, check_review_diff, expand_tilde, format_review_output, generate_ai_review_prompt,
    get_analysis_depth, get_language_from_file_path, review_diff_source, status_diff_args, DiffSource,
};
use gitie::dispatch::{
    combined_help, default_commit_args, error_to_explain, filter_tree_sitter_args, route_command, Route,
};
use gitie::errors::{AIError, AppError, GitError};
use gitie::git_module::{
    git_command_args, is_in_git_repository, join_args, map_command_error, map_output_to_git_command_error, passthrough_outcome,
    passthrough_to_git, CommandOutput, ExitInfo,
};
use gitie::review_engine::AnalysisDepth;

fn s(v: &[&str]) -> Vec<String> {
    v.iter().map(|x| x.to_string()).collect()
}

fn output(stdout: &str, stderr: &str, success: bool, code: Option<i32>) -> CommandOutput {
    CommandOutput { stdout: stdout.to_string(), stderr: stderr.to_string(), status: ExitInfo { success, code } }
}

fn commit_args(noai: bool, auto_stage: bool, passthrough: &[&str]) -> CommitArgs {
    CommitArgs {
        ai: !noai,
        noai,
        tree_sitter: None,
        auto_stage,
        message: None,
        review: false,
        passthrough_args: s(passthrough),
    }
}

fn review_args(c1: Option<&str>, c2: Option<&str>, depth: &str) -> ReviewArgs {
    ReviewArgs {
        depth: depth.to_string(),
        focus: None,
        lang: None,
        format: "text".to_string(),
        output: None,
        tree_sitter: false,
        no_tree_sitter: false,
        review_ts: false,
        commit1: c1.map(|c| c.to_string()),
        commit2: c2.map(|c| c.to_string()),
        passthrough_args: vec![],
    }
}

#[test]
fn tree_sitter_flags() {
    assert!(args_contain_tree_sitter(&s(&["commit", "-t"])));
    assert!(args_contain_tree_sitter(&s(&["-at"])));
    assert!(!args_contain_tree_sitter(&s(&["--tree", "commit"])));
    assert_eq!(get_tree_sitter_level(&s(&["--tree-sitter", "deep"])), Some("deep".to_string()));
    assert_eq!(get_tree_sitter_level(&s(&["--tree-sitter", "-a"])), None);
    assert_eq!(get_tree_sitter_level(&s(&["--tree-sitter=shallow"])), Some("shallow".to_string()));
    assert!(should_use_tree_sitter(&s(&["--tree-sitter"])));
    assert!(!should_use_tree_sitter(&s(&["commit"])));
    let help = generate_gitie_help();
    assert!(help.starts_with("gitie: Git with AI assistance\n============================\n\n"));
    assert!(help.contains("  --noai              禁用 AI 功能\n"));
}

#[test]
fn routes_of_command_lines() {
    assert!(matches!(route_command(&s(&["gitie"])), Route::GitHelp));
    assert!(matches!(route_command(&s(&["gitie", "status", "--noai"])), Route::GitHelp));
    match route_command(&s(&["gitie", "-t", "deep", "review", "--depth=deep"])) {
        Route::Review(a) => assert_eq!(a, s(&["gitie", "review", "--depth=deep"])),
        _ => panic!("expected a review"),
    }
    match route_command(&s(&["gitie", "commit", "-a"])) {
        Route::Commit(a) => assert_eq!(a, s(&["gitie", "commit", "-a"])),
        _ => panic!("expected a commit"),
    }
    assert!(matches!(route_command(&s(&["gitie", "commit", "--help"])), Route::Help { use_ai: true }));
    match route_command(&s(&["gitie", "log", "--oneline"])) {
        Route::Git { args, use_ai } => {
            assert_eq!(args, s(&["log", "--oneline"]));
            assert!(use_ai);
        }
        _ => panic!("expected git"),
    }
}

#[test]
fn tree_sitter_arguments_are_filtered() {
    assert_eq!(filter_tree_sitter_args(&s(&["commit", "--tree-sitter", "deep", "-a"])), s(&["commit", "-a"]));
    assert_eq!(filter_tree_sitter_args(&s(&["commit", "-t", "--all"])), s(&["commit", "--all"]));
    assert_eq!(filter_tree_sitter_args(&s(&["tree-sitter", "commit", "-t"])), s(&["commit", "-t"]));
    let d = default_commit_args(&s(&["commit", "--noai", "-a", "--review", "-S"]));
    assert!(d.noai && !d.ai && d.auto_stage && d.review);
    assert_eq!(d.tree_sitter, None);
    assert_eq!(d.passthrough_args, s(&["--noai", "-a", "--review", "-S"]));
    assert_eq!(
        combined_help(&"A".to_string(), &"B".to_string()),
        "A\n\n== 标准 Git 帮助 ==\n\nB"
    );
}

#[test]
fn only_failed_commands_are_explained() {
    let failed = AppError::Git(GitError::CommandFailed {
        command: "git push".to_string(),
        status_code: Some(1),
        stdout: String::new(),
        stderr: "rejected".to_string(),
    });
    assert_eq!(
        error_to_explain(&failed, &s(&["push"])),
        Some(("rejected".to_string(), "git push".to_string()))
    );
    assert_eq!(error_to_explain(&failed, &s(&["push", "--noai"])), None);
    assert_eq!(error_to_explain(&AppError::Generic("x".to_string()), &s(&["push"])), None);
}

#[test]
fn command_output_views() {
    let o = output("a\nb\n", "", false, Some(2));
    assert!(!o.is_success());
    assert_eq!(o.exit_code(), Some(2));
    assert!(!o.is_empty());
    assert_eq!(o.stdout_lines(), s(&["a", "b"]));
    assert_eq!(o.formatted_display(), "Output:\na\nb\n\nExit code: 2\n");
    assert_eq!(output("x", "", true, Some(0)).combined_output(), "x");
    assert!(output("", "", true, Some(0)).is_empty());
    assert!(output("out", "e1\ne2", true, Some(0)).combined_output().starts_with("out\n"));
    let combined = output("out", "e1\ne2", true, Some(0)).combined_output();
    assert!(combined.ends_with("e2"));
    assert!(combined.contains("ERROR\n"));
    let label = "ERROR\n".to_string();
    assert_eq!(output("out", "e1\ne2", true, Some(0)).combined_with_label(&label), "out\nERROR\n: e1\nERROR\n: e2");
    assert_eq!(output("", "e1", false, Some(1)).combined_with_label(&label), "ERROR\n: e1");
    assert_eq!(output("only", "", true, Some(0)).combined_with_label(&label), "only");
}

#[test]
fn git_invocations() {
    assert_eq!(git_command_args(&vec![]), s(&["--help"]));
    assert_eq!(join_args(&s(&["a", "b"])), "a b");
    assert!(is_in_git_repository(Ok(output(" true\n", "", true, Some(0)))).unwrap());
    assert!(!is_in_git_repository(Ok(output("false", "", true, Some(0)))).unwrap());
    assert!(!is_in_git_repository(Ok(output("true", "", false, Some(128)))).unwrap());
    match passthrough_outcome(&s(&["push"]), false, output("", "no", false, Some(1))) {
        Err(AppError::Git(GitError::PassthroughFailed { command, status_code })) => {
            assert_eq!(command, "git: push");
            assert_eq!(status_code, Some(1));
        }
        _ => panic!("expected a passthrough failure"),
    }
    assert!(passthrough_outcome(&s(&["push"]), true, output("", "no", false, Some(1))).is_ok());
    match passthrough_to_git(&vec![], Ok(output("", "", false, None))) {
        Err(AppError::Git(GitError::PassthroughFailed { command, status_code })) => {
            assert_eq!(command, "git: ");
            assert_eq!(status_code, None);
        }
        _ => panic!("expected a passthrough failure"),
    }
    match map_output_to_git_command_error("git add -u", output("o", "e", false, Some(3))) {
        GitError::CommandFailed { command, status_code, stdout, stderr } => {
            assert_eq!((command.as_str(), status_code, stdout.as_str(), stderr.as_str()), ("git add -u", Some(3), "o", "e"));
        }
        _ => panic!("expected a command failure"),
    }
    let status = ExitInfo { success: false, code: Some(128) };
    match map_command_error("git status", output("out", "fatal: not a git repository", false, Some(1)), status) {
        GitError::CommandFailed { command, status_code, stdout, stderr } => {
            assert_eq!(command, "git status");
            assert_eq!(status_code, Some(128));
            assert_eq!((stdout.as_str(), stderr.as_str()), ("out", "fatal: not a git repository"));
        }
        _ => panic!("expected a command failure"),
    }
}

#[test]
fn commit_argument_lists() {
    assert!(stages_all(&"-a".to_string()));
    assert!(stages_all(&"-aS".to_string()));
    assert!(!stages_all(&"--amend".to_string()));
    let mut a = commit_args(true, true, &["-a", "-S", "--all", "-v"]);
    a.message = Some("msg".to_string());
    assert_eq!(passthrough_commit_args(&a), s(&["commit", "-a", "-m", "msg", "-S", "-v"]));
    let b = commit_args(true, false, &["-a", "-S"]);
    assert_eq!(passthrough_commit_args(&b), s(&["commit", "-a", "-S"]));
    assert_eq!(
        ai_commit_args(&"feat: x".to_string(), &s(&["-aS", "--no-verify"])),
        s(&["commit", "-m", "feat: x", "--no-verify"])
    );
}

#[test]
fn staged_diff_decisions() {
    match after_staged_diff(&commit_args(false, false, &[]), "diff --git a b\n+x\n") {
        StagedDiffDecision::Generate(p) => assert_eq!(p, "Git diff:\ndiff --git a b\n+x\nGenerate commit message."),
        _ => panic!("expected a request"),
    }
    match after_staged_diff(&commit_args(false, true, &["--allow-empty"]), "  \n") {
        StagedDiffDecision::Passthrough(a, ctx) => {
            assert!(a.noai && a.auto_stage);
            assert_eq!(a.passthrough_args, s(&["--allow-empty"]));
            assert_eq!(ctx, "(AI commit with --allow-empty and no diff)");
        }
        _ => panic!("expected a plain commit"),
    }
    assert!(matches!(
        after_staged_diff(&commit_args(false, false, &[]), ""),
        StagedDiffDecision::Fail(AppError::Git(GitError::NoStagedChanges))
    ));
    assert_eq!(final_commit_message(Some(&"<think>x</think>  fix: y \n".to_string())).unwrap(), "fix: y");
    assert!(matches!(final_commit_message(None), Err(AppError::AI(AIError::EmptyMessage))));
    assert!(matches!(
        final_commit_message(Some(&"<think>only</think>".to_string())),
        Err(AppError::AI(AIError::EmptyMessage))
    ));
}

#[test]
fn review_sources_and_depth() {
    assert_eq!(get_analysis_depth(&review_args(None, None, "Shallow")), AnalysisDepth::Basic);
    assert_eq!(get_analysis_depth(&review_args(None, None, "deep")), AnalysisDepth::Deep);
    assert_eq!(get_analysis_depth(&review_args(None, None, "other")), AnalysisDepth::Normal);
    match review_diff_source(&review_args(Some("a1"), Some("b2"), "normal")) {
        DiffSource::Run(v) => assert_eq!(v, s(&["diff", "a1..b2", "--"])),
        _ => panic!("expected a run"),
    }
    match review_diff_source(&review_args(Some("a1"), None, "normal")) {
        DiffSource::Run(v) => assert_eq!(v, s(&["diff", "a1..HEAD", "--"])),
        _ => panic!("expected a run"),
    }
    assert!(matches!(review_diff_source(&review_args(None, None, "normal")), DiffSource::FromStatus));
    assert!(matches!(review_diff_source(&review_args(None, Some("b"), "normal")), DiffSource::Invalid(_)));
    assert_eq!(status_diff_args("M  a.rs\n?? b").unwrap(), s(&["diff", "--staged"]));
    assert_eq!(status_diff_args(" M a.rs\n").unwrap(), s(&["diff"]));
    assert!(matches!(status_diff_args("  \n"), Err(AppError::Generic(_))));
    assert!(check_review_diff(" \n").is_err());
    assert!(check_review_diff("+x").is_ok());
}

#[test]
fn review_texts() {
    let home = "/home/u".to_string();
    assert_eq!(expand_tilde("~/r.md", Some(&home)), "/home/u/r.md");
    assert_eq!(expand_tilde("~", Some(&home)), "/home/u");
    assert_eq!(expand_tilde("~x/r.md", Some(&home)), "~x/r.md");
    assert_eq!(expand_tilde("~/r.md", None), "~/r.md");
    assert_eq!(format_review_output("a\nb", "TEXT"), "a\nb");
    assert_eq!(
        format_review_output("say \"hi\"\n", "json"),
        "{\"format_version\":\"1.0\",\"review\":\"say \\\"hi\\\"\\n\",\"timestamp\":\"2023-01-01T00:00:00Z\"}"
    );
    let html = format_review_output("l1\nl2", "Html");
    assert!(html.contains("<div>l1<br>l2</div>"));
    assert!(answer_continues_commit(" Y \n"));
    assert!(!answer_continues_commit("n"));
    let mut args = review_args(None, None, "normal");
    args.focus = Some("性能".to_string());
    let p = generate_ai_review_prompt("+x", "analysis", &args, "Rust");
    assert!(p.contains("特别是Rust。"));
    assert!(p.contains("请特别关注以下方面: 性能"));
    assert!(p.ends_with("## TreeSitter结构分析\n\nanalysis\n\n## 代码变更\n\n```diff\n+x\n```"));
}

#[test]
fn review_language_of_a_path() {
    assert_eq!(get_language_from_file_path("src/lib.rs").as_deref(), Some("rust"));
    assert_eq!(get_language_from_file_path("ui/App.TSX").as_deref(), Some("js"));
    assert_eq!(get_language_from_file_path("include/a.h").as_deref(), Some("c"));
    assert_eq!(get_language_from_file_path("include/a.hxx").as_deref(), Some("cpp"));
    assert_eq!(get_language_from_file_path("main.go").as_deref(), Some("go"));
    assert_eq!(get_language_from_file_path("README"), None);
    assert_eq!(get_language_from_file_path("data.csv"), None);
}
