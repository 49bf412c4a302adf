use gitie::tree_sitter_analyzer::commit_prompt::generate_commit_prompt;
use gitie::tree_sitter_analyzer::model::{
    AffectedNode, ChangeAnalysis, ChangeType, DiffAnalysis, FileAnalysis,
};

fn node(t: &str, name: &str, public: bool) -> AffectedNode {
    AffectedNode {
        node_type: t.to_string(),
        name: name.to_string(),
        range: (1, 2),
        is_public: public,
        content: None,
        line_range: (1, 2),
        change_type: None,
        additions: None,
        deletions: None,
    }
}

fn file(path: &str, summary: Option<&str>, nodes: Vec<AffectedNode>) -> FileAnalysis {
    FileAnalysis {
        path: path.to_string(),
        language: "rust".to_string(),
        change_type: ChangeType::Modified,
        affected_nodes: nodes,
        summary: summary.map(|s| s.to_string()),
    }
}

fn diff(files: Vec<FileAnalysis>) -> DiffAnalysis {
    DiffAnalysis {
        file_analyses: files,
        overall_summary: "Two files".to_string(),
        change_analysis: ChangeAnalysis::default(),
    }
}

#[test]
fn prompt_without_files_or_syntax() {
    let p = generate_commit_prompt(&diff(vec![]), None);
    assert_eq!(
        p,
        "Generate a concise and informative commit message for the following changes:\n\nOverall summary: Two files"
    );
}

#[test]
fn prompt_lists_files_and_elements() {
    let d = diff(vec![file(
        "src/a.rs",
        Some("edited"),
        vec![node("function", "f", true), node("struct", "S", false)],
    )]);
    let syntax = "feat: ...".to_string();
    let p = generate_commit_prompt(&d, Some(&syntax));
    assert_eq!(
        p,
        "Generate a concise and informative commit message for the following changes:\n\
         \nOverall summary: Two files\n\
         \nKey changes per file:\n\
         - File: src/a.rs\n  Summary: edited\n  Affected elements:\n\
         \x20   - function f (public)\n    - struct S (non-public)\n\
         \nAdhere to the following commit message syntax and conventions:\nfeat: ..."
    );
}

#[test]
fn prompt_takes_five_files_and_three_elements() {
    let nodes = vec![
        node("function", "a", true),
        node("function", "b", true),
        node("function", "c", true),
        node("function", "d", true),
    ];
    let files: Vec<FileAnalysis> = (0..7)
        .map(|i| file(&format!("f{}.rs", i), None, if i == 0 { nodes.clone_nodes() } else { vec![] }))
        .collect();
    let p = generate_commit_prompt(&diff(files), None);
    assert!(p.contains("- File: f4.rs"));
    assert!(!p.contains("- File: f5.rs"));
    assert!(p.contains("    - function c (public)"));
    assert!(!p.contains("    - function d (public)"));
}

trait CloneNodes {
    fn clone_nodes(&self) -> Vec<AffectedNode>;
}

impl CloneNodes for Vec<AffectedNode> {
    fn clone_nodes(&self) -> Vec<AffectedNode> {
        self.iter().map(|n| node(&n.node_type, &n.name, n.is_public)).collect()
    }
}
