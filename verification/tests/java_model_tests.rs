use gitie::tree_sitter_analyzer::java::{
    get_java_query_pattern_str, is_java_jpa_entity, is_java_spring_bean, to_generic_change_pattern,
    JavaChangePattern, JavaClass, JavaClassRelation, JavaMethod, JavaMethodParam, JavaPackage,
    JavaProjectStructure, JavaRelationType,
};
use gitie::tree_sitter_analyzer::java_project::{build_java_project_structure, JavaFileFacts};
use gitie::tree_sitter_analyzer::model::ChangePattern;
use gitie::tree_sitter_analyzer::rust::{get_rust_query_pattern_str, RustChangePattern};
use gitie::tree_sitter_analyzer::rust::to_generic_change_pattern as rust_pattern;

fn method(name: &str) -> JavaMethod {
    JavaMethod {
        name: name.to_string(),
        return_type: "void".to_string(),
        parameters: vec![JavaMethodParam { name: "x".to_string(), param_type: "int".to_string() }],
        is_public: true,
        is_static: false,
        is_abstract: false,
        is_constructor: false,
        annotations: vec!["@Override".to_string()],
    }
}

#[test]
fn new_class_is_empty() {
    let c = JavaClass::new("User".to_string(), "src/User.java".to_string());
    assert_eq!(c.name, "User");
    assert_eq!(c.path, "src/User.java");
    assert!(c.imports.is_empty() && c.relations.is_empty() && c.methods.is_empty());
    assert!(!c.is_spring_bean && !c.is_jpa_entity);
}

#[test]
fn package_add_class_replaces_same_name() {
    let mut p = JavaPackage::new("com.example".to_string());
    p.add_class("User".to_string(), "a/User.java");
    p.add_class("Order".to_string(), "a/Order.java");
    p.add_class("User".to_string(), "b/User.java");
    let classes = p.get_classes();
    assert_eq!(classes.len(), 2);
    let user = classes.iter().find(|c| c.name == "User").unwrap();
    assert_eq!(user.path, "b/User.java");
}

#[test]
fn project_registers_classes_in_packages() {
    let mut s = JavaProjectStructure::new();
    assert!(s.get_packages().is_empty());
    s.add_class("com.example", "User", "User.java");
    s.add_class("com.example", "Order", "Order.java");
    s.add_class("com.other", "Thing", "Thing.java");
    assert_eq!(s.get_packages().len(), 2);
    let p = s.get_package("com.example").unwrap();
    assert_eq!(p.name, "com.example");
    assert_eq!(p.get_classes().len(), 2);
    assert!(s.get_package("com.missing").is_none());
}

#[test]
fn class_edits_reach_only_existing_classes() {
    let mut s = JavaProjectStructure::new();
    s.add_class("pkg", "A", "A.java");
    s.add_import("pkg", "A", "java.util.List");
    s.add_import("pkg", "A", "java.util.List");
    s.add_import("pkg", "A", "java.util.Map");
    s.add_relation(
        "pkg",
        "A",
        &JavaClassRelation { relation_type: JavaRelationType::Extends, target_class: "Base".to_string() },
    );
    s.add_method("pkg", "A", &method("run"));
    s.mark_as_spring_bean("pkg", "A");
    s.mark_as_jpa_entity("pkg", "A");
    // Edits of classes the project does not hold change nothing.
    s.add_import("pkg", "Missing", "x.Y");
    s.mark_as_spring_bean("nopkg", "A");
    let p = s.get_package("pkg").unwrap();
    let classes = p.get_classes();
    assert_eq!(classes.len(), 1);
    let a = classes[0];
    assert_eq!(a.imports.len(), 2);
    assert!(a.imports.contains(&"java.util.List".to_string()));
    assert!(a.imports.contains(&"java.util.Map".to_string()));
    assert_eq!(a.relations.len(), 1);
    assert_eq!(a.relations[0].relation_type, JavaRelationType::Extends);
    assert_eq!(a.relations[0].target_class, "Base");
    assert_eq!(a.methods.len(), 1);
    assert_eq!(a.methods[0].name, "run");
    assert_eq!(a.methods[0].parameters[0].param_type, "int");
    assert_eq!(a.methods[0].annotations, vec!["@Override".to_string()]);
    assert!(a.is_spring_bean && a.is_jpa_entity);
    assert!(s.get_package("nopkg").is_none());
}

#[test]
fn re_adding_a_class_resets_it() {
    let mut s = JavaProjectStructure::new();
    s.add_class("pkg", "A", "A.java");
    s.mark_as_jpa_entity("pkg", "A");
    s.add_class("pkg", "A", "A2.java");
    let a = s.get_package("pkg").unwrap().get_classes()[0];
    assert!(!a.is_jpa_entity);
    assert_eq!(a.path, "A2.java");
}

#[test]
fn clones_keep_values() {
    let m = method("go");
    let c = m.clone();
    assert_eq!(c.name, "go");
    assert_eq!(c.parameters.len(), 1);
    assert_eq!(c.parameters[0].name, "x");
    let r = JavaClassRelation { relation_type: JavaRelationType::Implements, target_class: "I".to_string() };
    let r2 = r.clone();
    assert_eq!(r2.relation_type, JavaRelationType::Implements);
    assert_eq!(r2.target_class, "I");
}

#[test]
fn java_change_patterns_are_named() {
    let names = [
        (JavaChangePattern::StructuralChange, "JavaStructuralChange"),
        (JavaChangePattern::VisibilityChange, "JavaVisibilityChange"),
        (JavaChangePattern::AnnotationChange, "JavaAnnotationChange"),
    ];
    for (p, n) in names {
        match to_generic_change_pattern(p) {
            ChangePattern::LanguageSpecificChange(s) => assert_eq!(s, n),
            _ => panic!("expected a language-specific pattern"),
        }
    }
}

#[test]
fn rust_change_patterns_are_named() {
    let names = [
        (RustChangePattern::TraitImplementation, "RustTraitImplementation"),
        (RustChangePattern::MacroChange, "RustMacroChange"),
        (RustChangePattern::StructuralChange, "RustStructuralChange"),
        (RustChangePattern::VisibilityChange, "RustVisibilityChange"),
        (RustChangePattern::LifetimeChange, "RustLifetimeChange"),
    ];
    for (p, n) in names {
        match rust_pattern(p) {
            ChangePattern::LanguageSpecificChange(s) => assert_eq!(s, n),
            _ => panic!("expected a language-specific pattern"),
        }
    }
}

#[test]
fn query_patterns_name_the_declarations() {
    let j = get_java_query_pattern_str();
    assert!(j.contains("(class_declaration) @class.declaration"));
    assert!(j.contains("(import_declaration) @import.declaration"));
    let r = get_rust_query_pattern_str();
    assert!(r.contains("(function_item) @function"));
    assert!(r.contains("(use_declaration) @use"));
}

#[test]
fn framework_roles_by_annotation() {
    assert!(is_java_spring_bean("@Service\npublic class S {}"));
    assert!(is_java_spring_bean("class C { @Bean X x() { return null; } }"));
    assert!(!is_java_spring_bean("public class Plain {}"));
    assert!(is_java_jpa_entity("@Entity\nclass E {}"));
    assert!(is_java_jpa_entity("@Embeddable class E {}"));
    assert!(!is_java_jpa_entity("@Service class S {}"));
}

fn facts(pkg: Option<&str>, class: Option<&str>, source: &str) -> JavaFileFacts {
    JavaFileFacts {
        path: format!("{}.java", class.unwrap_or("Unknown")),
        package_name: pkg.map(|p| p.to_string()),
        class_name: class.map(|c| c.to_string()),
        imports: vec!["java.util.List".to_string()],
        relations: vec![JavaClassRelation {
            relation_type: JavaRelationType::Implements,
            target_class: "Runnable".to_string(),
        }],
        methods: vec![method("run")],
        source: source.to_string(),
    }
}

#[test]
fn project_built_from_file_facts() {
    let files = vec![
        facts(Some("com.shop"), Some("Order"), "@Entity\n@Repository class Order {}"),
        facts(None, Some("Main"), "class Main {}"),
        facts(Some("com.shop"), None, "@Service class Lost {}"),
        facts(Some("com.shop"), Some("Cart"), "@Component class Cart {}"),
    ];
    let s = build_java_project_structure(&files);
    assert_eq!(s.get_packages().len(), 2);
    let shop = s.get_package("com.shop").unwrap();
    assert_eq!(shop.get_classes().len(), 2);
    let order = shop.get_classes().into_iter().find(|c| c.name == "Order").unwrap();
    assert!(order.is_jpa_entity && order.is_spring_bean);
    assert_eq!(order.imports, vec!["java.util.List".to_string()]);
    assert_eq!(order.relations.len(), 1);
    assert_eq!(order.methods.len(), 1);
    let cart = shop.get_classes().into_iter().find(|c| c.name == "Cart").unwrap();
    assert!(cart.is_spring_bean && !cart.is_jpa_entity);
    let default_pkg = s.get_package("").unwrap();
    let main = default_pkg.get_classes()[0];
    assert_eq!(main.name, "Main");
    assert!(!main.is_spring_bean && !main.is_jpa_entity);
}
