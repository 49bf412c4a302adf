use gitie::errors::TreeSitterError;
use gitie::tree_sitter_analyzer::java::{JavaProjectStructure, JavaRelationType};
use gitie::tree_sitter_analyzer::java_project::{build_java_project_structure, java_file_facts, JavaFileMatches};
use gitie::tree_sitter_analyzer::java_syntax::{
    analyze_java_file_structure_impl, extract_java_class_name, extract_java_class_name_from_node,
    extract_java_class_relations, extract_java_imports, extract_java_methods, extract_java_package_name,
    extract_modifier_info, is_java_node_public_impl, parse_java_method_parameters,
};
use gitie::tree_sitter_analyzer::rust::{analyze_rust_file_structure_impl, is_rust_node_public_impl};
use gitie::tree_sitter_analyzer::syntax::{is_syntax_node_public, SyntaxCapture, SyntaxMatch, SyntaxNode};

fn leaf(kind: &str, text: &str) -> SyntaxNode {
    SyntaxNode {
        kind: kind.to_string(),
        field: None,
        text: text.to_string(),
        start_row: 0,
        end_row: 0,
        parent_kind: None,
        children: Vec::new(),
    }
}

fn in_field(field: &str, mut n: SyntaxNode) -> SyntaxNode {
    n.field = Some(field.to_string());
    n
}

fn node(kind: &str, text: &str, rows: (usize, usize), children: Vec<SyntaxNode>) -> SyntaxNode {
    SyntaxNode {
        kind: kind.to_string(),
        field: None,
        text: text.to_string(),
        start_row: rows.0,
        end_row: rows.1,
        parent_kind: None,
        children,
    }
}

fn capture(name: &str, n: SyntaxNode) -> SyntaxCapture {
    SyntaxCapture { name: name.to_string(), node: n }
}

fn one_match(captures: Vec<SyntaxCapture>) -> SyntaxMatch {
    SyntaxMatch { captures }
}

fn message(e: TreeSitterError) -> String {
    e.message()
}

// ---------------------------------------------------------------------------
// Rust
// ---------------------------------------------------------------------------

#[test]
fn rust_visibility_modifier_child_makes_public() {
    let n = node("function_item", "pub(crate) fn f() {}", (0, 0), vec![leaf("visibility_modifier", "pub(crate)"), leaf("fn", "fn")]);
    assert!(is_rust_node_public_impl(&n));
}

#[test]
fn rust_without_modifier_is_private() {
    let n = node("function_item", "fn f() {}", (0, 0), vec![leaf("fn", "fn"), in_field("name", leaf("identifier", "f"))]);
    assert!(!is_rust_node_public_impl(&n));
}

#[test]
fn rust_pub_keyword_child_and_modifier_node() {
    let n = node("struct_item", "pub struct S;", (0, 0), vec![leaf("pub", "pub")]);
    assert!(is_rust_node_public_impl(&n));
    assert!(is_rust_node_public_impl(&leaf("visibility_modifier", "pub(super)")));
    assert!(!is_rust_node_public_impl(&leaf("visibility_modifier", "crate")));
}

#[test]
fn analyzer_rule_reads_first_modifier_child() {
    let rust = node("function_item", "pub fn f() {}", (0, 0), vec![leaf("visibility_modifier", "pub")]);
    assert!(is_syntax_node_public("rust", &rust));
    let crate_only = node("function_item", "crate fn f() {}", (0, 0), vec![leaf("visibility_modifier", "crate")]);
    assert!(!is_syntax_node_public("rust", &crate_only));
    let java = node("method_declaration", "public void f() {}", (0, 0), vec![leaf("modifiers", "public")]);
    assert!(is_syntax_node_public("java", &java));
    assert!(!is_syntax_node_public("python", &java));
}

#[test]
fn rust_structure_reads_named_items_impls_and_uses() {
    let function = node(
        "function_item",
        "pub fn run() {}",
        (2, 4),
        vec![leaf("visibility_modifier", "pub"), in_field("name", leaf("identifier", "run"))],
    );
    let trait_impl = node(
        "impl_item",
        "impl Display for Point {}",
        (6, 9),
        vec![in_field("trait", leaf("type_identifier", "Display")), in_field("type", leaf("type_identifier", "Point"))],
    );
    let inherent = node("impl_item", "impl Point {}", (10, 12), vec![in_field("type", leaf("type_identifier", "Point"))]);
    let bare = node("impl_item", "impl {}", (13, 13), vec![]);
    let use_decl = node("use_declaration", "use std::fmt;", (0, 0), vec![]);
    let nameless = node("function_item", "fn", (20, 20), vec![]);
    let mac = node("macro_definition", "macro_rules! m {}", (21, 22), vec![in_field("name", leaf("identifier", "m"))]);
    let attr = node("attribute_item", "#[test]", (1, 1), vec![]);
    let matches = vec![
        one_match(vec![capture("use", use_decl)]),
        one_match(vec![capture("function", function), capture("attribute", attr)]),
        one_match(vec![capture("impl_item", trait_impl), capture("impl_item", inherent), capture("impl_item", bare)]),
        one_match(vec![capture("function", nameless), capture("macro_definition", mac)]),
    ];
    let nodes = analyze_rust_file_structure_impl(&matches);
    let got: Vec<(&str, &str, (usize, usize), bool)> =
        nodes.iter().map(|n| (n.node_type.as_str(), n.name.as_str(), n.range, n.is_public)).collect();
    assert_eq!(
        got,
        vec![
            ("use_declaration", "use std::fmt;", (0, 0), false),
            ("function", "run", (2, 4), true),
            ("impl", "impl Display for Point", (6, 9), false),
            ("impl", "impl Point", (10, 12), false),
            ("impl", "UnknownImpl", (13, 13), false),
            ("macro", "m", (21, 22), false),
        ]
    );
    assert_eq!(nodes[1].content.as_deref(), Some("pub fn run() {}"));
    assert_eq!(nodes[1].line_range, (2, 4));
    assert!(nodes[1].change_type.is_none() && nodes[1].additions.is_none() && nodes[1].deletions.is_none());
}

#[test]
fn rust_impl_of_trait_without_type() {
    let n = node("impl_item", "impl Tr for", (0, 0), vec![in_field("trait", leaf("type_identifier", "Tr"))]);
    let nodes = analyze_rust_file_structure_impl(&vec![one_match(vec![capture("impl_item", n)])]);
    assert_eq!(nodes[0].name, "impl Tr for _");
}

// ---------------------------------------------------------------------------
// Java visibility and declarations
// ---------------------------------------------------------------------------

#[test]
fn java_modifiers_decide_visibility() {
    let public = node("method_declaration", "public void a() {}", (0, 0), vec![leaf("modifiers", "public")]);
    assert!(is_java_node_public_impl(&public));
    let protected = node("method_declaration", "protected void a() {}", (0, 0), vec![leaf("modifiers", "protected")]);
    assert!(!is_java_node_public_impl(&protected));
    let annotated = node("method_declaration", "@Override void a() {}", (0, 0), vec![leaf("modifiers", "@Override")]);
    assert!(!is_java_node_public_impl(&annotated));
}

#[test]
fn java_interface_methods_are_public_unless_private_or_static() {
    let mut m = node("method_declaration", "void run();", (0, 0), vec![leaf("void_type", "void")]);
    m.parent_kind = Some("interface_body".to_string());
    assert!(is_java_node_public_impl(&m));
    let mut s = node("method_declaration", "static void run();", (0, 0), vec![]);
    s.parent_kind = Some("interface_body".to_string());
    assert!(!is_java_node_public_impl(&s));
    let mut c = node("class_declaration", "class A {}", (0, 0), vec![]);
    c.parent_kind = Some("program".to_string());
    assert!(!is_java_node_public_impl(&c));
}

#[test]
fn java_class_name_from_node_reads_name_field() {
    let c = node("class_declaration", "class A {}", (0, 0), vec![leaf("class", "class"), in_field("name", leaf("identifier", "A"))]);
    assert_eq!(extract_java_class_name_from_node(&c), Some("A".to_string()));
    assert_eq!(extract_java_class_name_from_node(&leaf("class_declaration", "class")), None);
}

#[test]
fn java_structure_reads_types_members_and_packages() {
    let class = node(
        "class_declaration",
        "public class User {}",
        (2, 10),
        vec![leaf("modifiers", "public"), in_field("name", leaf("identifier", "User"))],
    );
    let field = node(
        "field_declaration",
        "private int id;",
        (3, 3),
        vec![
            leaf("modifiers", "private"),
            in_field("declarator", node("variable_declarator", "id", (3, 3), vec![in_field("name", leaf("identifier", "id"))])),
        ],
    );
    let package = node("package_declaration", "package com.example;", (0, 0), vec![leaf("package", "package"), leaf("scoped_identifier", "com.example")]);
    let bare_package = node("package_declaration", "package", (0, 0), vec![leaf("package", "package")]);
    let method = node("method_declaration", "void f() {}", (4, 5), vec![]);
    let import = node("import_declaration", "import java.util.List;", (1, 1), vec![]);
    let matches = vec![
        one_match(vec![capture("package.declaration", package), capture("package.declaration", bare_package)]),
        one_match(vec![capture("import.declaration", import), capture("class.declaration", class)]),
        one_match(vec![capture("field.declaration", field), capture("method.declaration", method)]),
    ];
    let nodes = analyze_java_file_structure_impl(&matches);
    let got: Vec<(&str, &str, (usize, usize), bool)> =
        nodes.iter().map(|n| (n.node_type.as_str(), n.name.as_str(), n.range, n.is_public)).collect();
    assert_eq!(
        got,
        vec![
            ("package", "com.example", (0, 0), false),
            ("class", "User", (2, 10), true),
            ("field", "id", (3, 3), false),
            ("method", "UnknownMethod", (4, 5), false),
        ]
    );
}

// ---------------------------------------------------------------------------
// Package, class name, imports, relations
// ---------------------------------------------------------------------------

#[test]
fn java_package_name_found_or_error() {
    let ms = vec![one_match(vec![capture("package.name", leaf("scoped_identifier", "com.example.app"))])];
    assert_eq!(extract_java_package_name(&ms).unwrap(), "com.example.app");
    let err = extract_java_package_name(&vec![]).unwrap_err();
    assert!(matches!(err, TreeSitterError::QueryError(_)));
    assert_eq!(message(err), "Query error: Java package name not found");
}

#[test]
fn java_imports_are_trimmed_in_order() {
    let ms = vec![
        one_match(vec![capture("import.name", leaf("scoped_identifier", " java.util.List "))]),
        one_match(vec![capture("import.name", leaf("scoped_identifier", "java.io.File"))]),
    ];
    assert_eq!(extract_java_imports(&ms), vec!["java.util.List".to_string(), "java.io.File".to_string()]);
    assert!(extract_java_imports(&vec![]).is_empty());
}

#[test]
fn java_class_name_from_query_file_or_error() {
    let ms = vec![one_match(vec![capture("name", leaf("identifier", " Order "))])];
    assert_eq!(extract_java_class_name(&ms, "src/Other.java").unwrap(), "Order");
    assert_eq!(extract_java_class_name(&vec![], "src/main/Invoice.java").unwrap(), "Invoice");
    let err = extract_java_class_name(&vec![], "").unwrap_err();
    assert!(matches!(err, TreeSitterError::ParseError(_)));
    assert_eq!(message(err), "Parse error: Failed to extract Java class name from AST or filename");
}

#[test]
fn java_relations_extends_before_implements() {
    let ext = vec![one_match(vec![capture("type", leaf("type_identifier", "Base"))])];
    let imp = vec![one_match(vec![capture("type", leaf("type_identifier", "Runnable")), capture("type", leaf("type_identifier", " Closeable"))])];
    let rels = extract_java_class_relations(&ext, &imp);
    let got: Vec<(JavaRelationType, &str)> = rels.iter().map(|r| (r.relation_type, r.target_class.as_str())).collect();
    assert_eq!(
        got,
        vec![
            (JavaRelationType::Extends, "Base"),
            (JavaRelationType::Implements, "Runnable"),
            (JavaRelationType::Implements, "Closeable"),
        ]
    );
}

// ---------------------------------------------------------------------------
// Methods
// ---------------------------------------------------------------------------

fn param(ty: &str, name: &str) -> SyntaxNode {
    node(
        "formal_parameter",
        "p",
        (0, 0),
        vec![in_field("type", leaf("type_identifier", ty)), in_field("name", leaf("identifier", name))],
    )
}

fn params(children: Vec<SyntaxNode>) -> SyntaxNode {
    node("formal_parameters", "(...)", (0, 0), children)
}

#[test]
fn java_parameters_need_type_and_identifier_name() {
    let untyped = node("formal_parameter", "x", (0, 0), vec![in_field("name", leaf("identifier", "x"))]);
    let spread = node("spread_parameter", "String... a", (0, 0), vec![]);
    let ps = params(vec![leaf("(", "("), param("int", " count "), untyped, spread, param("String", "label"), leaf(")", ")")]);
    let got: Vec<(String, String)> =
        parse_java_method_parameters(&ps).into_iter().map(|p| (p.name, p.param_type)).collect();
    assert_eq!(got, vec![("count".to_string(), "int".to_string()), ("label".to_string(), "String".to_string())]);
}

#[test]
fn java_modifier_info_reads_keywords_and_annotations() {
    let decl = node(
        "method_declaration",
        "public static abstract void f();",
        (0, 0),
        vec![
            node("modifiers", "public static abstract", (0, 0), vec![leaf("public", "public"), leaf("static", "static"), leaf("abstract", "abstract")]),
            leaf("annotation", " @Deprecated "),
        ],
    );
    let (public, is_static, is_abstract, annotations) = extract_modifier_info(&decl);
    assert!(public && is_static && is_abstract);
    assert_eq!(annotations, vec!["@Deprecated".to_string()]);
    let plain = node("method_declaration", "void f();", (0, 0), vec![]);
    let (public, is_static, is_abstract, annotations) = extract_modifier_info(&plain);
    assert!(!public && !is_static && !is_abstract && annotations.is_empty());
}

#[test]
fn java_methods_and_constructors_from_matches() {
    let full = node(
        "method_declaration",
        "public static int add(int a, int b) { return a + b; }",
        (3, 5),
        vec![node("modifiers", "public static", (3, 3), vec![leaf("public", "public"), leaf("static", "static")])],
    );
    let method = one_match(vec![
        capture("return.type", leaf("integral_type", "int")),
        capture("method.name", leaf("identifier", "add")),
        capture("method.parameters", params(vec![param("int", "a"), param("int", "b")])),
        capture("method.full", full),
    ]);
    let ctor = one_match(vec![
        capture("constructor.name", leaf("identifier", "Calc")),
        capture("constructor.parameters", params(vec![])),
        capture("constructor.full", node("constructor_declaration", "Calc() {}", (1, 1), vec![])),
    ]);
    let no_full = one_match(vec![capture("method.name", leaf("identifier", "lost"))]);
    let no_name = one_match(vec![capture("method.full", leaf("method_declaration", "void ();"))]);
    let void_method = one_match(vec![
        capture("method.name", leaf("identifier", "run")),
        capture("method.full", leaf("method_declaration", "void run() {}")),
    ]);
    let methods = extract_java_methods(&vec![method, ctor, no_full, no_name, void_method]);
    assert_eq!(methods.len(), 3);
    let m = &methods[0];
    assert_eq!((m.name.as_str(), m.return_type.as_str()), ("add", "int"));
    assert!(m.is_public && m.is_static && !m.is_abstract && !m.is_constructor);
    let ps: Vec<(&str, &str)> = m.parameters.iter().map(|p| (p.name.as_str(), p.param_type.as_str())).collect();
    assert_eq!(ps, vec![("a", "int"), ("b", "int")]);
    let c = &methods[1];
    assert_eq!((c.name.as_str(), c.return_type.as_str()), ("Calc", "Calc"));
    assert!(c.is_constructor && !c.is_public && c.parameters.is_empty());
    let v = &methods[2];
    assert_eq!((v.name.as_str(), v.return_type.as_str()), ("run", "void"));
    assert!(!v.is_constructor);
}

// ---------------------------------------------------------------------------
// Facts of a file
// ---------------------------------------------------------------------------

#[test]
fn java_file_facts_follow_the_queries() {
    let matches = JavaFileMatches {
        package: Some(vec![]),
        class_name: Some(vec![]),
        imports: Some(vec![one_match(vec![capture("import.name", leaf("scoped_identifier", "java.util.List"))])]),
        extends: Some(vec![one_match(vec![capture("type", leaf("type_identifier", "Base"))])]),
        implements: None,
        methods: None,
    };
    let facts = java_file_facts("src/Cart.java", "@Service class Cart {}", &matches);
    assert_eq!(facts.path, "src/Cart.java");
    assert_eq!(facts.package_name, None);
    assert_eq!(facts.class_name.as_deref(), Some("Cart"));
    assert_eq!(facts.imports, vec!["java.util.List".to_string()]);
    assert!(facts.relations.is_empty());
    assert!(facts.methods.is_empty());
    let project: JavaProjectStructure = build_java_project_structure(&vec![facts]);
    let pkg = project.get_package("").unwrap();
    let cart = pkg.get_classes().into_iter().find(|c| c.name == "Cart").unwrap();
    assert!(cart.is_spring_bean);
    assert_eq!(cart.imports, vec!["java.util.List".to_string()]);
}

#[test]
fn java_file_without_class_name_query_is_not_recorded() {
    let matches = JavaFileMatches {
        package: Some(vec![one_match(vec![capture("package.name", leaf("scoped_identifier", "com.x"))])]),
        class_name: None,
        imports: None,
        extends: None,
        implements: None,
        methods: None,
    };
    let facts = java_file_facts("A.java", "class A {}", &matches);
    assert_eq!(facts.package_name.as_deref(), Some("com.x"));
    assert_eq!(facts.class_name, None);
    let project = build_java_project_structure(&vec![facts]);
    assert!(project.get_packages().is_empty());
}

#[test]
fn java_project_of_a_directory_starts_empty() {
    let project = gitie::tree_sitter_analyzer::java_project::analyze_java_project_structure("src").unwrap();
    assert!(project.get_packages().is_empty());
}
