use gitie::config_management::files::get_prompt_directories;
use gitie::errors::TreeSitterError;
use gitie::tree_sitter_analyzer::diff_analysis::{
    analyze_parsed_diff, generate_overall_summary, FileOutcome, ParseOutcome,
};
use gitie::tree_sitter_analyzer::file_changes::{analyze_file_changes, CaptureNode, QueryMatch};
use gitie::tree_sitter_analyzer::model::{
    calculate_hash, parse_git_diff, parse_line_range, AffectedNode, ChangeScope, ChangeType, DiffHunk,
    FileAnalysis, HunkRange, LineRange, ChangePattern,
};
use gitie::tree_sitter_analyzer::structure::{
    analyze_changes, analyze_file_structure, detect_language, find_affected_nodes,
};

fn capture(name: &str, text: &str, start: usize, end: usize, row: usize, children: &[(&str, &str)]) -> CaptureNode {
    CaptureNode {
        capture_name: name.to_string(),
        start_byte: start,
        end_byte: end,
        start_row: row,
        end_row: row,
        text: text.to_string(),
        sexp: String::new(),
        children: children.iter().map(|(k, t)| (k.to_string(), t.to_string())).collect(),
    }
}

fn node(t: &str, name: &str, from: usize, to: usize) -> AffectedNode {
    AffectedNode::new(t.to_string(), name.to_string(), (from, to), false)
}

fn analysis(path: &str, language: &str, nodes: Vec<AffectedNode>) -> FileAnalysis {
    FileAnalysis {
        path: path.to_string(),
        language: language.to_string(),
        change_type: ChangeType::Modified,
        affected_nodes: nodes,
        summary: None,
    }
}

#[test]
fn tree_sitter_analyzer_test_detect_language() {
    assert_eq!(detect_language("test.rs").unwrap(), "rust");
    assert_eq!(detect_language("test.js").unwrap(), "javascript");
    assert_eq!(detect_language("test.py").unwrap(), "python");
    assert!(detect_language("test.xyz").is_err());
}

#[test]
fn test_language_detection() {
    assert_eq!(detect_language("file.rs").unwrap(), "rust");
    assert_eq!(detect_language("script.js").unwrap(), "javascript");
    assert_eq!(detect_language("module.py").unwrap(), "python");
    assert_eq!(detect_language("Main.java").unwrap(), "java");
    assert_eq!(detect_language("component.tsx").unwrap(), "javascript");
    let result = detect_language("unknown.xyz");
    assert!(result.is_err(), "Should return error for unsupported language");
}

#[test]
fn language_errors_name_the_extension() {
    match detect_language("a.kt") {
        Err(TreeSitterError::UnsupportedLanguage(m)) => assert_eq!(m, "不支持的文件类型: .kt"),
        _ => panic!("expected an error"),
    }
    match detect_language("Makefile") {
        Err(TreeSitterError::UnsupportedLanguage(m)) => assert_eq!(m, "无法检测文件扩展名"),
        _ => panic!("expected an error"),
    }
    assert_eq!(detect_language("x.hpp").unwrap(), "cpp");
}

#[test]
fn declarations_named_by_captures() {
    let source = "pub fn a() {}\nfn b() {}\n";
    let ms = vec![
        QueryMatch { captures: vec![
            capture("function.declaration", "pub fn a() {}", 0, 13, 0, &[]),
            capture("function.name", "a", 7, 8, 0, &[("visibility_modifier", "pub")]),
        ] },
        QueryMatch { captures: vec![capture("function.name", "b", 17, 18, 1, &[("identifier", "b")])] },
        QueryMatch { captures: vec![capture("struct.name", "Bad", 30, 30, 2, &[])] },
    ];
    let nodes = analyze_file_structure("rust", source, Some(&ms));
    assert_eq!(nodes.len(), 2);
    assert_eq!((nodes[0].node_type.as_str(), nodes[0].name.as_str(), nodes[0].is_public), ("function", "a", true));
    assert_eq!((nodes[1].name.as_str(), nodes[1].range, nodes[1].is_public), ("b", (1, 1), false));
    // Other languages look at the declaration's first line.
    let java = "public class A {}\nclass B {}\n";
    let jm = vec![QueryMatch { captures: vec![
        capture("class.name", "A", 13, 14, 0, &[]),
        capture("class.name", "B", 24, 25, 1, &[]),
    ] }];
    let jn = analyze_file_structure("java", java, Some(&jm));
    assert!(jn[0].is_public && !jn[1].is_public);
    // Without a grammar, stand-ins; without text, nothing.
    let stand_ins = analyze_file_structure("java", "x", None);
    assert_eq!(stand_ins.len(), 2);
    assert_eq!(stand_ins[0].name, "exampleMethod");
    assert!(analyze_file_structure("rust", "", None).is_empty());
    assert!(analyze_file_structure("go", "x", None).is_empty());
}

#[test]
fn nodes_touched_by_hunks() {
    let all = vec![node("function", "f", 1, 10), node("struct", "S", 20, 30)];
    let hunk = |start: usize, count: usize| DiffHunk {
        old_range: HunkRange { start, count },
        new_range: HunkRange { start, count },
        lines: vec![],
    };
    let touched = find_affected_nodes("rust", &all, &vec![hunk(5, 2), hunk(25, 1)]);
    assert_eq!(touched.iter().map(|n| n.name.as_str()).collect::<Vec<_>>(), vec!["f", "S"]);
    let blocks = find_affected_nodes("java", &all, &vec![hunk(12, 3), hunk(40, 0)]);
    assert_eq!(blocks.len(), 2);
    assert_eq!(blocks[0].node_type, "method");
    assert_eq!(blocks[0].name, "changed_block_1");
    assert_eq!(blocks[0].range, (12, 14));
    assert_eq!(blocks[1].name, "changed_block_2");
    assert_eq!(blocks[1].range, (40, 40));
    assert!(blocks[1].is_public);
}

#[test]
fn change_statistics_by_kind() {
    let fas = vec![
        analysis("a.rs", "rust", vec![node("function", "f", 1, 2), node("trait", "T", 3, 4), node("enum", "E", 5, 6)]),
        analysis("b.rs", "rust", vec![]),
    ];
    let ca = analyze_changes(&fas);
    assert_eq!(
        (ca.function_changes, ca.type_changes, ca.method_changes, ca.interface_changes, ca.other_changes),
        (1, 0, 0, 1, 1)
    );
    assert!(matches!(ca.change_pattern, ChangePattern::FeatureImplementation));
    assert_eq!(ca.change_scope, ChangeScope::Minor);
    let none = analyze_changes(&vec![analysis("c.toml", "toml", vec![])]);
    assert!(matches!(none.change_pattern, ChangePattern::ConfigurationChange));
    let many: Vec<FileAnalysis> = (0..6).map(|i| analysis(&format!("f{}.rs", i), "rust", vec![node("method", "m", 1, 1)])).collect();
    let ca = analyze_changes(&many);
    assert!(matches!(ca.change_pattern, ChangePattern::BehaviorChange));
    assert_eq!(ca.change_scope, ChangeScope::Major);
}

#[test]
fn ranges_and_hashes() {
    let r = LineRange::new(3, 4);
    assert_eq!((r.start, r.count), (3, 4));
    let p = parse_line_range("+12,5");
    assert_eq!((p.start, p.count), (12, 5));
    let q = parse_line_range("-7");
    assert_eq!((q.start, q.count), (7, 1));
    let z = parse_line_range("x,y");
    assert_eq!((z.start, z.count), (0, 0));
    assert_eq!(calculate_hash(""), "0");
    assert_eq!(calculate_hash("ab"), "c21");
}

#[test]
fn overall_summary_counts() {
    assert_eq!(generate_overall_summary(&vec![]), "No files analyzed");
    let fas = vec![
        analysis("a.rs", "rust", vec![node("function", "f", 1, 2), node("struct", "S", 3, 4)]),
        analysis("B.java", "java", vec![]),
    ];
    assert_eq!(
        generate_overall_summary(&fas),
        "Analyzed 2 files\nLanguages: rust (1), java (1)\nFound 2 affected nodes\nIncluding: 1 functions/methods, 1 classes/structs\n"
    );
}

#[test]
fn parsed_diff_analysis_per_file() {
    let text = "diff --git a/src/old.rs b/src/old.rs\ndeleted file mode 100644\n--- a/src/old.rs\n+++ /dev/null\n@@ -1,1 +0,0 @@\n-fn old() {}\ndiff --git a/src/gone.rs b/src/gone.rs\n--- a/src/gone.rs\n+++ b/src/gone.rs\n@@ -1,1 +1,1 @@\n-a\n+b\ndiff --git a/README.md b/README.md\n--- a/README.md\n+++ b/README.md\n@@ -1,1 +1,1 @@\n-x\n+y\n";
    let diff = parse_git_diff(text).unwrap();
    assert_eq!(diff.changed_files.len(), 3);
    let outcomes = vec![
        FileOutcome::Missing,
        FileOutcome::Missing,
        FileOutcome::Present {
            path: "README.md".to_string(),
            parse: ParseOutcome::Failed(TreeSitterError::ParseError("unused".to_string())),
        },
    ];
    let a = analyze_parsed_diff(&diff, outcomes).unwrap();
    assert_eq!(a.file_analyses.len(), 2);
    assert_eq!(a.file_analyses[0].change_type, ChangeType::Deleted);
    assert_eq!(a.file_analyses[0].language, "unknown");
    assert_eq!(a.file_analyses[0].summary.as_deref(), Some("文件被删除"));
    assert_eq!(a.file_analyses[1].path, "README.md");
    assert_eq!(a.file_analyses[1].summary.as_deref(), Some("不支持的文件类型，无法进行 tree-sitter 分析"));
}

#[test]
fn file_changes_need_a_query() {
    let hunks = vec![DiffHunk {
        old_range: HunkRange { start: 1, count: 1 },
        new_range: HunkRange { start: 1, count: 1 },
        lines: vec!["+def f(): pass".to_string()],
    }];
    match analyze_file_changes(&"python".to_string(), &"def f(): pass\n".to_string(), &hunks, None) {
        Err(TreeSitterError::QueryError(m)) => assert_eq!(m, "No query found for language python"),
        _ => panic!("expected a query error"),
    }
    let source = "fn f() {}\n".to_string();
    let ms = vec![QueryMatch { captures: vec![
        capture("function.declaration", "fn f() {}", 0, 9, 0, &[]),
        capture("function.name", "f", 3, 4, 0, &[]),
    ] }];
    let hunks = vec![DiffHunk {
        old_range: HunkRange { start: 0, count: 0 },
        new_range: HunkRange { start: 1, count: 1 },
        lines: vec!["+fn f() {}".to_string()],
    }];
    let nodes = analyze_file_changes(&"rust".to_string(), &source, &hunks, Some(&ms)).unwrap();
    assert!(!nodes.is_empty());
    assert!(nodes.iter().all(|n| n.name == "f"));
    assert!(nodes.iter().all(|n| n.additions == Some(vec!["fn f() {}".to_string()])));
}

/// The outcome for a changed file that exists and parses, with no affected
/// declarations.
fn parsed(path: &str) -> FileOutcome {
    FileOutcome::Present { path: path.to_string(), parse: ParseOutcome::Analyzed(vec![]) }
}

#[test]
fn test_diff_parsing() {
    let diff_text = r#"diff --git a/src/main.rs b/src/main.rs
index 83db48f..2c6f1f0 100644
--- a/src/main.rs
+++ b/src/main.rs
@@ -1,5 +1,5 @@
 fn main() {
-    println!("Hello, world!");
+    println!("Hello, Tree-sitter!");
 }
"#;
    let diff = parse_git_diff(diff_text).unwrap();
    let result = analyze_parsed_diff(&diff, vec![parsed("src/main.rs")]);
    assert!(result.is_ok(), "Should be able to parse simple diff");
    let analysis = result.unwrap();
    assert!(!analysis.file_analyses.is_empty(), "Should contain file analyses");
    let file_analysis = &analysis.file_analyses[0];
    assert_eq!(file_analysis.path, "src/main.rs");
    assert_eq!(file_analysis.change_type, ChangeType::Modified);
}

#[test]
fn test_analysis_with_multiple_files() {
    let diff_text = r#"diff --git a/src/main.rs b/src/main.rs
index 83db48f..2c6f1f0 100644
--- a/src/main.rs
+++ b/src/main.rs
@@ -1,5 +1,5 @@
 fn main() {
-    println!("Hello, world!");
+    println!("Hello, Tree-sitter!");
 }
diff --git a/src/lib.rs b/src/lib.rs
new file mode 100644
index 0000000..f0eacc8
--- /dev/null
+++ b/src/lib.rs
@@ -0,0 +1,3 @@
+pub fn hello() -> &'static str {
+    "Hello from lib"
+}
diff --git a/src/old.rs b/src/old.rs
deleted file mode 100644
index 83db48f..0000000
--- a/src/old.rs
+++ /dev/null
@@ -1,3 +0,0 @@
-fn old_function() {
-    println!("This is old");
-}
"#;
    let diff = parse_git_diff(diff_text).unwrap();
    let outcomes = vec![parsed("src/main.rs"), parsed("src/lib.rs"), FileOutcome::Missing];
    let result = analyze_parsed_diff(&diff, outcomes);
    assert!(result.is_ok(), "Should be able to analyze complex diff");
    let analysis = result.unwrap();
    assert_eq!(analysis.file_analyses.len(), 3, "Should have 3 file analyses");
    let change_types: Vec<ChangeType> = analysis.file_analyses.iter().map(|a| a.change_type).collect();
    assert!(change_types.contains(&ChangeType::Modified));
    assert!(change_types.contains(&ChangeType::Added));
    assert!(change_types.contains(&ChangeType::Deleted));
}

#[test]
fn line_range_ends() {
    assert_eq!(LineRange::new(5, 3).end(), 7);
    assert_eq!(LineRange::new(5, 0).end(), 5);
    assert_eq!(LineRange::new(1, 1).end(), 1);
}

#[test]
fn prompt_directories_end_with_assets() {
    let dirs = get_prompt_directories(&vec!["a".to_string(), "b/c".to_string()]);
    assert_eq!(dirs, vec!["a".to_string(), "b/c".to_string(), "assets".to_string()]);
    assert_eq!(get_prompt_directories(&vec![]), vec!["assets".to_string()]);
}
