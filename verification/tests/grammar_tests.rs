use gitie::errors::TreeSitterError;
use gitie::tree_sitter_analyzer::grammars::{analyze_source_changes, hunks_fit, java_query_matches, rust_query_matches};
use gitie::tree_sitter_analyzer::model::{DiffHunk, HunkRange};

fn hunk(start: usize, count: usize, lines: &[&str]) -> DiffHunk {
    DiffHunk {
        old_range: HunkRange { start, count },
        new_range: HunkRange { start, count },
        lines: lines.iter().map(|l| l.to_string()).collect(),
    }
}

#[test]
fn rust_query_over_source() {
    let ms = rust_query_matches("fn a() {}\nfn b() {}\n", "(function_item name: (identifier) @name)").unwrap();
    assert_eq!(ms.len(), 2);
    let c = &ms[1].captures[0];
    assert_eq!((c.capture_name.as_str(), c.text.as_str(), c.start_row, c.start_byte, c.end_byte), ("name", "b", 1, 13, 14));
    assert_eq!(c.sexp, "(identifier)");
    let f = rust_query_matches("pub fn a() {}", "(function_item) @f").unwrap();
    let kinds: Vec<&str> = f[0].captures[0].children.iter().map(|(k, _)| k.as_str()).collect();
    assert_eq!(kinds[0], "visibility_modifier");
    assert_eq!(f[0].captures[0].children[0].1, "pub");
    assert!(rust_query_matches("fn a() {}", "(no_such_node) @x").is_none());
}

#[test]
fn java_query_over_source() {
    let ms = java_query_matches("class A { void m() {} }", "(method_declaration name: (identifier) @m)").unwrap();
    assert_eq!(ms.len(), 1);
    assert_eq!(ms[0].captures[0].text, "m");
}

#[test]
fn source_changes_of_a_rust_file() {
    let source = "fn main() {}\npub fn add(a: i32) -> i32 {\n    a\n}\n".to_string();
    let hunks = vec![hunk(2, 3, &["+pub fn add(a: i32) -> i32 {", "+    a", "+}"])];
    assert!(hunks_fit(&hunks));
    let nodes = analyze_source_changes(&"rust".to_string(), &source, &hunks).unwrap();
    assert!(nodes.iter().any(|n| n.name == "add" && n.node_type.contains("function")));
    assert!(nodes.iter().all(|n| n.name != "main"));
}

#[test]
fn source_changes_need_a_query() {
    let hunks = vec![hunk(1, 1, &["+x = 1"])];
    match analyze_source_changes(&"python".to_string(), &"x = 1\n".to_string(), &hunks) {
        Err(TreeSitterError::QueryError(m)) => assert_eq!(m, "No query found for language python"),
        _ => panic!("expected a query error"),
    }
    assert!(!hunks_fit(&vec![hunk(usize::MAX, 2, &[])]));
}
