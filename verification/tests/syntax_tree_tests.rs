use gitie::tree_sitter_analyzer::grammars::{analyze_source_structure, go_query_matches, python_query_matches};
use gitie::tree_sitter_analyzer::java_project::java_file_facts;
use gitie::tree_sitter_analyzer::syntax_trees::{
    java_file_structure, java_source_matches, java_syntax_matches, rust_file_structure, rust_syntax_matches,
};

#[test]
fn rust_trees_carry_children_and_parents() {
    let ms = rust_syntax_matches("pub fn a() {}", "(function_item) @f").unwrap();
    assert_eq!(ms.len(), 1);
    let c = &ms[0].captures[0];
    assert_eq!(c.name, "f");
    assert_eq!(c.node.kind, "function_item");
    assert_eq!(c.node.parent_kind.as_deref(), Some("source_file"));
    assert_eq!(c.node.field, None);
    assert_eq!(c.node.children[0].kind, "visibility_modifier");
    assert_eq!(c.node.children[0].text, "pub");
    assert_eq!(c.node.children[0].parent_kind.as_deref(), Some("function_item"));
    let name = c.node.children.iter().find(|k| k.field.as_deref() == Some("name")).unwrap();
    assert_eq!((name.kind.as_str(), name.text.as_str(), name.start_row, name.end_row), ("identifier", "a", 0, 0));
    assert!(c.node.children.iter().all(|k| k.children.is_empty()));
    assert!(rust_syntax_matches("fn a() {}", "(no_such_node) @x").is_none());
}

#[test]
fn java_trees_carry_grandchildren() {
    let ms = java_syntax_matches("class A {\n  int x = 1;\n}\n", "(field_declaration) @f").unwrap();
    assert_eq!(ms.len(), 1);
    let node = &ms[0].captures[0].node;
    assert_eq!((node.start_row, node.end_row), (1, 1));
    assert_eq!(node.parent_kind.as_deref(), Some("class_body"));
    let decl = node.children.iter().find(|k| k.field.as_deref() == Some("declarator")).unwrap();
    assert_eq!(decl.kind, "variable_declarator");
    assert_eq!(decl.text, "x = 1");
    let name = decl.children.iter().find(|g| g.field.as_deref() == Some("name")).unwrap();
    assert_eq!((name.text.as_str(), name.start_row), ("x", 1));
    assert_eq!(name.parent_kind.as_deref(), Some("variable_declarator"));
}

#[test]
fn rust_file_structure_lists_declarations() {
    let nodes = rust_file_structure("pub fn add(a: i32) -> i32 { a }\nstruct S;\nimpl S {}\n").unwrap();
    let seen: Vec<(&str, &str, usize, bool)> =
        nodes.iter().map(|n| (n.node_type.as_str(), n.name.as_str(), n.range.0, n.is_public)).collect();
    assert_eq!(seen, vec![("function", "add", 0, true), ("struct", "S", 1, false), ("impl", "impl S", 2, false)]);
    assert_eq!(nodes[1].content.as_deref(), Some("struct S;"));
}

#[test]
fn java_file_structure_lists_declarations() {
    let source = "public class A {\n  private int x = 1;\n  public void m() {}\n}\n";
    let nodes = java_file_structure(source).unwrap();
    let seen: Vec<(&str, &str, bool)> = nodes.iter().map(|n| (n.node_type.as_str(), n.name.as_str(), n.is_public)).collect();
    assert_eq!(seen, vec![("class", "A", true), ("field", "x", false), ("method", "m", true)]);
    assert_eq!(nodes[2].range, (2, 2));
}

#[test]
fn java_project_facts_from_text() {
    let source = "package com.x;\nimport java.util.List;\npublic class A extends B implements C {\n  public int f(int a) { return a; }\n}\n";
    let matches = java_source_matches(source);
    assert!(matches.package.is_some() && matches.methods.is_some());
    let facts = java_file_facts("src/A.java", source, &matches);
    assert_eq!(facts.package_name.as_deref(), Some("com.x"));
    assert_eq!(facts.class_name.as_deref(), Some("A"));
    // The import query names a `name` field, which this Java grammar does not
    // give `import_declaration`: the query cannot be made, and no imports come.
    assert!(matches.imports.is_none());
    assert!(facts.imports.is_empty());
    assert_eq!(facts.methods.len(), 1);
    assert_eq!(facts.methods[0].name, "f");
}

#[test]
fn python_structure_from_text() {
    let nodes = analyze_source_structure("python", "def f():\n    pass\n").unwrap();
    assert!(nodes.iter().any(|n| n.name == "f"));
    let none = analyze_source_structure("cobol", "").unwrap();
    assert!(none.is_empty());
}

#[test]
fn go_python_and_rust_structure_from_text() {
    let source = "package main\n\nfunc Add(a int) int {\n\treturn a\n}\n";
    let ms = go_query_matches(source, "(function_declaration name: (identifier) @n)").unwrap();
    assert_eq!((ms[0].captures[0].text.as_str(), ms[0].captures[0].start_row), ("Add", 2));
    let py = python_query_matches("def f():\n    pass\n", "(function_definition name: (identifier) @n)").unwrap();
    assert_eq!(py[0].captures[0].text, "f");
    assert!(analyze_source_structure("go", source).is_some());
    // The Rust structure query names its captures by kind alone (`@function`),
    // never `<kind>.name`, so no capture names a declaration.
    let rust = analyze_source_structure("rust", "pub fn add() {}\nfn hidden() {}\n").unwrap();
    assert!(rust.iter().all(|n| n.name != "add" && n.name != "hidden"));
}
