use gitie::tree_sitter_analyzer::analyzer::{
    determine_change_pattern, determine_change_scope, generate_java_file_summary, generate_rust_file_summary,
};
use gitie::tree_sitter_analyzer::model::{AffectedNode, ChangePattern, ChangeScope, ChangeType, FileAnalysis};

fn node(t: &str, public: bool, change: Option<&str>, content: Option<&str>) -> AffectedNode {
    AffectedNode {
        node_type: t.to_string(),
        name: "n".to_string(),
        range: (0, 1),
        is_public: public,
        content: content.map(|c| c.to_string()),
        line_range: (0, 1),
        change_type: change.map(|c| c.to_string()),
        additions: None,
        deletions: None,
    }
}

#[test]
fn rust_summary_counts_kinds_and_changes() {
    let path = "src/lib.rs".to_string();
    assert_eq!(generate_rust_file_summary(&path, &vec![]), "Rust文件 src/lib.rs 变更分析: 未检测到结构性变更");
    let nodes = vec![
        node("struct", true, Some("added"), None),
        node("function", false, Some("modified"), None),
        node("function", true, Some("deleted"), None),
        node("test_function", false, None, None),
    ];
    assert_eq!(
        generate_rust_file_summary(&path, &nodes),
        "Rust文件 src/lib.rs 变更分析: 影响了1个结构体、2个函数。包含1个测试函数。其中2个为公开项。共有1个新增、1个删除、1个修改"
    );
}

#[test]
fn java_summary_without_nodes() {
    let path = "A.java".to_string();
    assert_eq!(generate_java_file_summary(&path, &vec![]), "Java文件 A.java 变更分析: 未检测到结构性变更");
    let s = generate_java_file_summary(&path, &vec![node("class", true, Some("added"), None)]);
    assert!(s.starts_with("Java文件 A.java 变更分析: "));
}

#[test]
fn change_scope_thresholds() {
    assert_eq!(determine_change_scope(0, 0, 0, 0, 6, 0, 0), ChangeScope::Major);
    assert_eq!(determine_change_scope(0, 0, 0, 0, 0, 0, 3), ChangeScope::Major);
    assert_eq!(determine_change_scope(21, 0, 0, 0, 0, 0, 0), ChangeScope::Moderate);
    assert_eq!(determine_change_scope(0, 30, 21, 0, 0, 0, 0), ChangeScope::Moderate);
    assert_eq!(determine_change_scope(0, 0, 0, 0, 0, 4, 0), ChangeScope::Moderate);
    assert_eq!(determine_change_scope(20, 25, 25, 9, 5, 3, 2), ChangeScope::Minor);
}

#[test]
fn java_dominated_patterns() {
    let fas = vec![FileAnalysis {
        path: "A.java".to_string(),
        language: "java".to_string(),
        change_type: ChangeType::Modified,
        affected_nodes: vec![node("jpa_entity", true, None, None)],
        summary: None,
    }];
    match determine_change_pattern(&fas, 0, 1, 0, 0, 1, 0, 0, 0) {
        ChangePattern::LanguageSpecificChange(s) => assert_eq!(s, "JavaStructuralChange"),
        _ => panic!("expected a Java pattern"),
    }
    let vis = vec![FileAnalysis {
        path: "B.java".to_string(),
        language: "java".to_string(),
        change_type: ChangeType::Modified,
        affected_nodes: vec![node("method", true, None, Some("private void x()"))],
        summary: None,
    }];
    match determine_change_pattern(&vis, 0, 0, 1, 0, 2, 1, 0, 0) {
        ChangePattern::LanguageSpecificChange(s) => assert_eq!(s, "JavaVisibilityChange"),
        _ => panic!("expected a Java pattern"),
    }
}
