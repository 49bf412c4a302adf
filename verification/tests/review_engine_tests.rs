use gitie::config_management::settings::TreeSitterConfig;
use gitie::review_engine::rules::{create_common_rules, ConsistentIndentation, HardcodedCredentials, LineLength, RuleFactory};
use gitie::review_engine::{
    AnalysisDepth, Rule, RuleCategory, RuleConfig, RuleContext, RuleEngine, Severity, SimpleReviewer,
};
use gitie::tree_sitter_analyzer::model::{ChangeType, ChangedFile, DiffHunk, GitDiff, HunkRange};

fn diff_of(path: &str, lines: &[&str]) -> GitDiff {
    GitDiff {
        changed_files: vec![ChangedFile {
            path: path.to_string(),
            change_type: ChangeType::Modified,
            hunks: vec![DiffHunk {
                old_range: HunkRange { start: 1, count: 1 },
                new_range: HunkRange { start: 1, count: lines.len() },
                lines: lines.iter().map(|l| l.to_string()).collect(),
            }],
            file_mode_change: None,
        }],
        metadata: None,
    }
}

fn context(diff: &GitDiff) -> RuleContext<'_> {
    RuleContext {
        diff,
        file_contents: vec![],
        work_dir: ".".to_string(),
        depth: AnalysisDepth::Normal,
        focus: vec![],
    }
}

#[test]
fn simple_reviewer_findings() {
    let long = format!("+{}", "x".repeat(100));
    let d = diff_of("a.rs", &["+let password = 1;", &long, " context password", "-token"]);
    let r = SimpleReviewer::new(TreeSitterConfig::default_config()).review(&d);
    assert_eq!(r.len(), 2);
    assert_eq!(r[0].title, "检测到硬编码凭证");
    assert_eq!(r[0].severity, Severity::Error);
    assert_eq!(r[1].title, "行长度过长");
    assert_eq!(r[1].severity, Severity::Info);
    let clean = SimpleReviewer::new(TreeSitterConfig::default_config()).review(&diff_of("a.rs", &["+ok"]));
    assert_eq!(clean.len(), 1);
    assert_eq!(clean[0].title, "代码质量良好");
    assert_eq!(clean[0].content, "未发现明显问题，代码质量良好");
}

#[test]
fn line_length_rule() {
    let long = format!("+{}", "y".repeat(100));
    let d = diff_of("src/x.rs", &[" a", &long]);
    let issues = LineLength { max_length: 100, severity: Severity::Info }.apply(&context(&d));
    assert_eq!(issues.len(), 1);
    assert_eq!(issues[0].id, "line-length:1");
    assert_eq!(issues[0].title, "行长度超过 100 字符");
    assert_eq!(issues[0].description, "该行长度为 101 字符，超过了推荐的最大长度 100 字符");
    assert_eq!(issues[0].location.file_path, "src/x.rs");
    assert_eq!(issues[0].location.start_line, 2);
    assert_eq!(issues[0].category, RuleCategory::Style);
    assert_eq!(issues[0].code_snippet.as_deref(), Some(long.as_str()));
}

#[test]
fn indentation_rule() {
    let d = diff_of("a.py", &["+  first", "+    fine", "+   odd", "+", "+plain"]);
    let issues = ConsistentIndentation { severity: Severity::Info }.apply(&context(&d));
    assert_eq!(issues.len(), 1);
    assert_eq!(issues[0].id, "consistent-indentation:1");
    assert_eq!(issues[0].description, "检测到首选缩进为 2 空格，但该行使用了 3 空格");
    assert_eq!(issues[0].location.start_line, 3);
    assert_eq!(issues[0].suggestion.as_deref(), Some("使用一致的缩进（2空格的倍数）"));
}

#[test]
fn credentials_rule() {
    let d = diff_of("cfg.rs", &["+API_KEY = \"abc\"", "+let x = 1;", "-password = 1", "+Token: x"]);
    let issues = HardcodedCredentials { severity: Severity::Error }.apply(&context(&d));
    assert_eq!(issues.len(), 2);
    assert_eq!(issues[0].location.start_line, 1);
    assert_eq!(issues[1].location.start_line, 4);
    assert_eq!(issues[1].id, "hardcoded-credentials:2");
    assert_eq!(issues[0].title, "检测到硬编码凭证");
}

#[test]
fn engine_scores_and_groups() {
    let mut engine = RuleEngine::new(RuleConfig {
        enabled_categories: vec![RuleCategory::Style, RuleCategory::Security],
        depth: AnalysisDepth::Normal,
        custom_rules_path: None,
        ignore_rules: vec![],
    });
    assert!(engine.load_language_rules("rust").is_ok());
    engine.rule_sets = RuleFactory::create_all_rules();
    let long = format!("+{}", "z".repeat(120));
    let d = diff_of("m.rs", &["+secret = 1", &long, " unchanged"]);
    let r = engine.apply_rules(&context(&d));
    assert_eq!(r.issues.len(), 2);
    assert_eq!(r.summary.files_count, 1);
    assert_eq!(r.summary.lines_count, 3);
    assert_eq!(r.summary.changed_lines_count, 2);
    assert_eq!(r.summary.score, Some(84));
    assert_eq!(r.summary.overview, "发现 1 个严重问题，需要优先解决。");
    assert_eq!(r.issues_by_file.len(), 1);
    assert_eq!(r.issues_by_file[0].0, "m.rs");

    let mut quiet = RuleEngine::new(RuleConfig {
        enabled_categories: vec![RuleCategory::Style],
        depth: AnalysisDepth::Basic,
        custom_rules_path: None,
        ignore_rules: vec!["line-length".to_string()],
    });
    quiet.rule_sets = RuleFactory::create_all_rules();
    let r = quiet.apply_rules(&context(&d));
    assert!(r.issues.is_empty());
    assert_eq!(r.summary.score, Some(100));
    assert_eq!(r.summary.overview, "代码质量优秀，未发现问题。");
}

#[test]
fn language_rules_are_style_then_security() {
    let rules = RuleFactory::create_language_rules("Rust");
    assert_eq!(rules.len(), 5);
    assert_eq!(rules[0].name(), "line-length");
    assert_eq!(rules[3].name(), "hardcoded-credentials");
    assert_eq!(rules[3].category(), RuleCategory::Security);
}

#[test]
fn common_rules_cover_every_builtin_rule() {
    let rules = create_common_rules();
    let names: Vec<&str> = rules.iter().map(|r| r.name()).collect();
    assert_eq!(names.len(), 13);
    assert_eq!(names[0], "line-length");
    assert_eq!(names[9], "hardcoded-credentials");
    assert_eq!(rules[9].severity(), Severity::Error);
    assert_eq!(rules[4].severity(), Severity::Warning);
    assert_eq!(rules[0].severity(), Severity::Info);
}

#[test]
fn score_penalty_up_to_the_byte_limit() {
    let mut engine = RuleEngine::new(RuleConfig {
        enabled_categories: vec![RuleCategory::Security],
        depth: AnalysisDepth::Normal,
        custom_rules_path: None,
        ignore_rules: vec![],
    });
    engine.rule_sets = RuleFactory::create_all_rules();
    // 17 errors weigh 255, the most a byte holds: the score falls to 0.
    let lines: Vec<&str> = vec!["+secret = 1"; 17];
    let d = diff_of("m.rs", &lines);
    let r = engine.apply_rules(&context(&d));
    assert_eq!(r.issues.len(), 17);
    assert_eq!(r.summary.score, Some(0));
    let lines: Vec<&str> = vec!["+secret = 1"; 3];
    let d = diff_of("m.rs", &lines);
    let r = engine.apply_rules(&context(&d));
    assert_eq!(r.summary.score, Some(55));
}

#[test]
fn rule_sets_hold_each_rule_once_under_its_category() {
    let sets = RuleFactory::create_all_rules();
    let mut names: Vec<&str> = Vec::new();
    for (category, rules) in &sets {
        for r in rules {
            assert_eq!(r.category(), *category);
            names.push(r.name());
        }
    }
    assert_eq!(names.len(), 13);
    let mut sorted = names.clone();
    sorted.sort();
    sorted.dedup();
    assert_eq!(sorted.len(), 13);
    let common = create_common_rules();
    assert!(common.iter().all(|r| names.contains(&r.name())));
}

#[test]
fn info_count_is_taken_as_a_byte() {
    let mut engine = RuleEngine::new(RuleConfig {
        enabled_categories: vec![RuleCategory::Style],
        depth: AnalysisDepth::Normal,
        custom_rules_path: None,
        ignore_rules: vec![],
    });
    engine.rule_sets = RuleFactory::create_all_rules();
    let long = format!("+{}", "a".repeat(120));
    let lines: Vec<&str> = vec![long.as_str(); 256];
    let d = diff_of("m.rs", &lines);
    let r = engine.apply_rules(&context(&d));
    assert_eq!(r.issues.len(), 256);
    assert!(r.issues.iter().all(|i| i.severity == Severity::Info));
    // 256 infos count as 0 once taken as a byte: no penalty.
    assert_eq!(r.summary.score, Some(100));
}
