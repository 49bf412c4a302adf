//! The decisions of the structural diff analysis: how affected nodes are
//! classified per language, how files and whole diffs are summarised, and
//! which change pattern and scope a diff is given.
//!
//! Parsing source files is left to the caller; everything here works on the
//! affected nodes that parsing produced.

use vstd::prelude::*;
use vstd::string::StringExecFns;
use crate::text::{
    chars_of, contains_seq, contains_str, decimal, ends_with, extend_chars, extend_str,
    extend_string, is_suffix_of, join_parts, join_seqs, lowercase_of, opt_string_view,
    path_extension, path_extension_of, push_decimal, string_eq_str, to_lowercase, to_string,
    views,
};
use crate::tree_sitter_analyzer::model::{
    analysis_views, node_views, AffectedNode, AffectedNodeModel, ChangePattern, ChangePatternModel,
    ChangeScope, FileAnalysis, FileAnalysisModel,
};

verus! {

// ---------------------------------------------------------------------------
// Node content and change kinds
// ---------------------------------------------------------------------------

/// The content of a node, empty when it has none.
pub open spec fn node_content(n: AffectedNodeModel) -> Seq<char> {
    match n.content {
        Some(c) => c,
        None => Seq::empty(),
    }
}

/// The content of a node as characters.
pub fn content_chars(n: &AffectedNode) -> (res: Vec<char>)
    ensures
        res@ == node_content(n@),
{
    match &n.content {
        Some(c) => chars_of(c.as_str()),
        None => Vec::new(),
    }
}

/// The kind of change a node records: 0 an addition (`added` or
/// `added_content`), 1 a deletion (`deleted`), 2 a modification (`modified`
/// or `modified_with_deletion`), 3 none of these.
pub open spec fn change_kind_of(n: AffectedNodeModel) -> u8 {
    match n.change_type {
        Some(c) => if c == "added"@ || c == "added_content"@ {
            0
        } else if c == "deleted"@ {
            1
        } else if c == "modified"@ || c == "modified_with_deletion"@ {
            2
        } else {
            3
        },
        None => 3,
    }
}

/// The node records an addition.
pub open spec fn is_addition(n: AffectedNodeModel) -> bool {
    change_kind_of(n) == 0
}

/// The node records a deletion.
pub open spec fn is_deletion(n: AffectedNodeModel) -> bool {
    change_kind_of(n) == 1
}

/// The node records a modification.
pub open spec fn is_modification(n: AffectedNodeModel) -> bool {
    change_kind_of(n) == 2
}

/// The kind of change a node records (see `change_kind_of`).
pub fn change_kind(n: &AffectedNode) -> (res: u8)
    ensures
        res == change_kind_of(n@),
{
    match &n.change_type {
        Some(c) => {
            if string_eq_str(c, "added") || string_eq_str(c, "added_content") {
                0
            } else if string_eq_str(c, "deleted") {
                1
            } else if string_eq_str(c, "modified") || string_eq_str(c, "modified_with_deletion") {
                2
            } else {
                3
            }
        },
        None => 3,
    }
}

/// The number of nodes that satisfy `p`.
pub open spec fn count_nodes(ns: Seq<AffectedNodeModel>, p: spec_fn(AffectedNodeModel) -> bool) -> nat
    decreases ns.len(),
{
    if ns.len() == 0 {
        0
    } else {
        count_nodes(ns.drop_last(), p) + if p(ns.last()) {
            1nat
        } else {
            0nat
        }
    }
}

/// A count never exceeds the number of nodes.
pub proof fn lemma_count_nodes_bound(ns: Seq<AffectedNodeModel>, p: spec_fn(AffectedNodeModel) -> bool)
    ensures
        count_nodes(ns, p) <= ns.len(),
    decreases ns.len(),
{
    if ns.len() > 0 {
        lemma_count_nodes_bound(ns.drop_last(), p);
    }
}

/// One more node extends every count by at most one.
pub proof fn lemma_count_nodes_step(ns: Seq<AffectedNodeModel>, p: spec_fn(AffectedNodeModel) -> bool, i: int)
    requires
        0 <= i < ns.len(),
    ensures
        count_nodes(ns.take(i + 1), p) == count_nodes(ns.take(i), p) + if p(ns[i]) {
            1nat
        } else {
            0nat
        },
        count_nodes(ns.take(i), p) <= i,
{
    assert(ns.take(i + 1).drop_last() =~= ns.take(i));
    lemma_count_nodes_bound(ns.take(i), p);
}

// ---------------------------------------------------------------------------
// Language-specific refinement of node types
// ---------------------------------------------------------------------------

/// The Java refinement of a node type, given the node's content.
pub open spec fn java_refined_type(t: Seq<char>, c: Seq<char>) -> Seq<char> {
    if t == "class"@ {
        if contains_seq(c, "@Service"@) || contains_seq(c, "@Component"@) || contains_seq(
            c,
            "@Controller"@,
        ) || contains_seq(c, "@Repository"@) {
            "spring_component"@
        } else if contains_seq(c, "@Entity"@) || contains_seq(c, "@Table"@) {
            "jpa_entity"@
        } else {
            "class_structure"@
        }
    } else if t == "interface"@ {
        "interface_structure"@
    } else if t == "enum"@ {
        "enum_structure"@
    } else if t == "annotation"@ {
        "annotation_interface"@
    } else if t == "field"@ {
        if contains_seq(c, "@Autowired"@) || contains_seq(c, "@Inject"@) {
            "injected_field"@
        } else {
            "field"@
        }
    } else if t == "method"@ {
        if contains_seq(c, "throws "@) {
            "throws_declaration"@
        } else if contains_seq(c, "@Test"@) {
            "test_method"@
        } else if contains_seq(c, "@GetMapping"@) || contains_seq(c, "@PostMapping"@)
            || contains_seq(c, "@RequestMapping"@) {
            "api_endpoint"@
        } else if contains_seq(c, "@Override"@) {
            "overridden_method"@
        } else {
            "method"@
        }
    } else if t == "package"@ {
        "package_declaration"@
    } else if t == "import"@ {
        "import_statement"@
    } else if t == "lambda"@ {
        "lambda_expression"@
    } else if t == "static"@ {
        "static_initializer"@
    } else {
        t
    }
}

/// The Java refinement of a node type, given the node's content.
pub fn java_refined_type_of(t: &String, c: &[char]) -> (res: String)
    ensures
        res@ == java_refined_type(t@, c@),
{
    if string_eq_str(t, "class") {
        if contains_str(c, "@Service") || contains_str(c, "@Component") || contains_str(
            c,
            "@Controller",
        ) || contains_str(c, "@Repository") {
            String::from_str("spring_component")
        } else if contains_str(c, "@Entity") || contains_str(c, "@Table") {
            String::from_str("jpa_entity")
        } else {
            String::from_str("class_structure")
        }
    } else if string_eq_str(t, "interface") {
        String::from_str("interface_structure")
    } else if string_eq_str(t, "enum") {
        String::from_str("enum_structure")
    } else if string_eq_str(t, "annotation") {
        String::from_str("annotation_interface")
    } else if string_eq_str(t, "field") {
        if contains_str(c, "@Autowired") || contains_str(c, "@Inject") {
            String::from_str("injected_field")
        } else {
            String::from_str("field")
        }
    } else if string_eq_str(t, "method") {
        if contains_str(c, "throws ") {
            String::from_str("throws_declaration")
        } else if contains_str(c, "@Test") {
            String::from_str("test_method")
        } else if contains_str(c, "@GetMapping") || contains_str(c, "@PostMapping") || contains_str(
            c,
            "@RequestMapping",
        ) {
            String::from_str("api_endpoint")
        } else if contains_str(c, "@Override") {
            String::from_str("overridden_method")
        } else {
            String::from_str("method")
        }
    } else if string_eq_str(t, "package") {
        String::from_str("package_declaration")
    } else if string_eq_str(t, "import") {
        String::from_str("import_statement")
    } else if string_eq_str(t, "lambda") {
        String::from_str("lambda_expression")
    } else if string_eq_str(t, "static") {
        String::from_str("static_initializer")
    } else {
        t.clone()
    }
}

/// The Rust refinement of a node type, given the node's content.
pub open spec fn rust_refined_type(t: Seq<char>, c: Seq<char>) -> Seq<char> {
    if t == "struct"@ {
        if contains_seq(c, "#[derive(Debug"@) || contains_seq(c, "impl Debug"@) {
            "debuggable_struct"@
        } else {
            "struct_definition"@
        }
    } else if t == "enum"@ {
        if contains_seq(c, "#[derive(Debug"@) {
            "debuggable_enum"@
        } else {
            "enum_definition"@
        }
    } else if t == "trait"@ {
        "trait_definition"@
    } else if t == "impl"@ {
        if contains_seq(c, " for "@) {
            "trait_impl"@
        } else {
            "inherent_impl"@
        }
    } else if t == "module"@ {
        if contains_seq(c, "pub mod "@) {
            "public_module"@
        } else {
            "module_definition"@
        }
    } else if t == "const"@ {
        "constant_definition"@
    } else if t == "static"@ {
        "static_definition"@
    } else if t == "type_alias"@ {
        "type_alias_definition"@
    } else if t == "macro"@ {
        if contains_seq(c, "macro_rules!"@) {
            "macro_definition"@
        } else {
            "macro_invocation"@
        }
    } else if t == "use"@ {
        "use_declaration"@
    } else if t == "function"@ {
        if contains_seq(c, "#[test"@) {
            "test_function"@
        } else if contains_seq(c, "async fn"@) {
            "async_function"@
        } else if contains_seq(c, "unsafe fn"@) {
            "unsafe_function"@
        } else if contains_seq(c, "pub fn"@) {
            "public_function"@
        } else {
            "function_definition"@
        }
    } else if t == "attribute"@ {
        "attribute_item"@
    } else {
        t
    }
}

/// The Rust refinement of a node type, given the node's content.
pub fn rust_refined_type_of(t: &String, c: &[char]) -> (res: String)
    ensures
        res@ == rust_refined_type(t@, c@),
{
    if string_eq_str(t, "struct") {
        if contains_str(c, "#[derive(Debug") || contains_str(c, "impl Debug") {
            String::from_str("debuggable_struct")
        } else {
            String::from_str("struct_definition")
        }
    } else if string_eq_str(t, "enum") {
        if contains_str(c, "#[derive(Debug") {
            String::from_str("debuggable_enum")
        } else {
            String::from_str("enum_definition")
        }
    } else if string_eq_str(t, "trait") {
        String::from_str("trait_definition")
    } else if string_eq_str(t, "impl") {
        if contains_str(c, " for ") {
            String::from_str("trait_impl")
        } else {
            String::from_str("inherent_impl")
        }
    } else if string_eq_str(t, "module") {
        if contains_str(c, "pub mod ") {
            String::from_str("public_module")
        } else {
            String::from_str("module_definition")
        }
    } else if string_eq_str(t, "const") {
        String::from_str("constant_definition")
    } else if string_eq_str(t, "static") {
        String::from_str("static_definition")
    } else if string_eq_str(t, "type_alias") {
        String::from_str("type_alias_definition")
    } else if string_eq_str(t, "macro") {
        if contains_str(c, "macro_rules!") {
            String::from_str("macro_definition")
        } else {
            String::from_str("macro_invocation")
        }
    } else if string_eq_str(t, "use") {
        String::from_str("use_declaration")
    } else if string_eq_str(t, "function") {
        if contains_str(c, "#[test") {
            String::from_str("test_function")
        } else if contains_str(c, "async fn") {
            String::from_str("async_function")
        } else if contains_str(c, "unsafe fn") {
            String::from_str("unsafe_function")
        } else if contains_str(c, "pub fn") {
            String::from_str("public_function")
        } else {
            String::from_str("function_definition")
        }
    } else if string_eq_str(t, "attribute") {
        String::from_str("attribute_item")
    } else {
        t.clone()
    }
}

/// A node with its type refined for Java; everything else unchanged.
pub open spec fn java_refined_node(n: AffectedNodeModel) -> AffectedNodeModel {
    AffectedNodeModel { node_type: java_refined_type(n.node_type, node_content(n)), ..n }
}

/// A node with its type refined for Rust, and marked public when its content
/// holds `pub `; everything else unchanged.
pub open spec fn rust_refined_node(n: AffectedNodeModel) -> AffectedNodeModel {
    AffectedNodeModel {
        node_type: rust_refined_type(n.node_type, node_content(n)),
        is_public: n.is_public || contains_seq(node_content(n), "pub "@),
        ..n
    }
}

/// Refines the type of every node for Java.
pub fn refine_java_nodes(nodes: &mut Vec<AffectedNode>)
    ensures
        node_views(final(nodes)@) == node_views(old(nodes)@).map_values(
            |n: AffectedNodeModel| java_refined_node(n),
        ),
{
    let ghost before = node_views(nodes@);
    let mut i: usize = 0;
    while i < nodes.len()
        invariant
            nodes@.len() == before.len(),
            i <= nodes@.len(),
            forall|j: int| 0 <= j < i ==> (#[trigger] nodes@[j])@ == java_refined_node(before[j]),
            forall|j: int| i <= j < nodes@.len() ==> (#[trigger] nodes@[j])@ == before[j],
        decreases nodes.len() - i,
    {
        let c = content_chars(&nodes[i]);
        let t = java_refined_type_of(&nodes[i].node_type, c.as_slice());
        nodes[i].node_type = t;
        i = i + 1;
    }
    assert(node_views(nodes@) =~= before.map_values(|n: AffectedNodeModel| java_refined_node(n)));
}

/// Refines the type and visibility of every node for Rust.
pub fn refine_rust_nodes(nodes: &mut Vec<AffectedNode>)
    ensures
        node_views(final(nodes)@) == node_views(old(nodes)@).map_values(
            |n: AffectedNodeModel| rust_refined_node(n),
        ),
{
    let ghost before = node_views(nodes@);
    let mut i: usize = 0;
    while i < nodes.len()
        invariant
            nodes@.len() == before.len(),
            i <= nodes@.len(),
            forall|j: int| 0 <= j < i ==> (#[trigger] nodes@[j])@ == rust_refined_node(before[j]),
            forall|j: int| i <= j < nodes@.len() ==> (#[trigger] nodes@[j])@ == before[j],
        decreases nodes.len() - i,
    {
        let c = content_chars(&nodes[i]);
        let t = rust_refined_type_of(&nodes[i].node_type, c.as_slice());
        let p = contains_str(c.as_slice(), "pub ");
        nodes[i].node_type = t;
        if p {
            nodes[i].is_public = true;
        }
        i = i + 1;
    }
    assert(node_views(nodes@) =~= before.map_values(|n: AffectedNodeModel| rust_refined_node(n)));
}

// ---------------------------------------------------------------------------
// Classes of nodes
// ---------------------------------------------------------------------------

/// The structural category under which the diff analysis counts a node:
/// 0 function, 1 type, 2 method, 3 interface, 4 other.
pub open spec fn structure_kind(n: AffectedNodeModel) -> u8 {
    let t = n.node_type;
    if t == "function"@ || t == "test_function"@ {
        0
    } else if t == "class"@ || t == "struct"@ || t == "enum"@ || t == "interface"@ || t == "type"@
        || t == "class_structure"@ || t == "debuggable_struct"@ {
        1
    } else if t == "method"@ || t == "overridden_method"@ || t == "api_endpoint"@ {
        2
    } else if t == "trait"@ {
        3
    } else {
        4
    }
}

/// The structural category of a node (see `structure_kind`).
pub fn structure_kind_of(n: &AffectedNode) -> (res: u8)
    ensures
        res == structure_kind(n@),
{
    let t = &n.node_type;
    if string_eq_str(t, "function") || string_eq_str(t, "test_function") {
        0
    } else if string_eq_str(t, "class") || string_eq_str(t, "struct") || string_eq_str(t, "enum")
        || string_eq_str(t, "interface") || string_eq_str(t, "type") || string_eq_str(
        t,
        "class_structure",
    ) || string_eq_str(t, "debuggable_struct") {
        1
    } else if string_eq_str(t, "method") || string_eq_str(t, "overridden_method") || string_eq_str(
        t,
        "api_endpoint",
    ) {
        2
    } else if string_eq_str(t, "trait") {
        3
    } else {
        4
    }
}

/// The classes of nodes that the summaries and the change-pattern rules
/// look for.
#[derive(Debug, Clone, Copy, PartialEq, Eq, Structural)]
pub enum NodeClass {
    /// A Java class (`class` or `class_structure`).
    JavaClass,
    /// A Java method (`method` or `overridden_method`).
    JavaMethod,
    /// A Java field (`field`).
    JavaField,
    /// A REST endpoint (`api_endpoint`).
    ApiEndpoint,
    /// A Spring component (`spring_component`).
    SpringComponent,
    /// A JPA entity (`jpa_entity`).
    JpaEntity,
    /// A Spring component or a REST endpoint.
    SpringOrEndpoint,
    /// A Rust struct (`struct` or `debuggable_struct`).
    RustStruct,
    /// A Rust enum (`enum`).
    RustEnum,
    /// A Rust trait (`trait`).
    RustTrait,
    /// A Rust impl block (`impl`).
    RustImpl,
    /// A Rust function (`function`).
    RustFunction,
    /// A Rust macro (`macro`).
    RustMacro,
    /// A test function (`test_function`).
    TestFunction,
    /// A trait, or an impl block whose content holds `impl`.
    TraitOrImpl,
    /// A public node.
    Public,
    /// A node recording an addition.
    Addition,
    /// A node recording a deletion.
    Deletion,
    /// A node recording a modification.
    Modification,
    /// A node in structural category `k` (see `structure_kind`).
    Structure(u8),
    /// A node whose content names a visibility (`public`, `private`,
    /// `protected` or `package`).
    VisibilityWord,
    /// A node whose lower-cased content names a fix (`fix`, `bug`, `issue`,
    /// `error`, `crash` or `exception`).
    BugFixWord,
    /// A node whose lower-cased content names a refactoring (`refactor`,
    /// `clean`, `improve`, `simplify` or `restructure`).
    RefactorWord,
    /// A node whose type names a function or method (holds `function` or
    /// `method`).
    NamesFunction,
    /// A node whose type names a class, struct or interface (holds `class`,
    /// `struct` or `interface`) and no function or method.
    NamesClass,
}

/// The content names a visibility.
pub open spec fn names_visibility(c: Seq<char>) -> bool {
    contains_seq(c, "public"@) || contains_seq(c, "private"@) || contains_seq(c, "protected"@)
        || contains_seq(c, "package"@)
}

/// The lower-cased content names a fix.
pub open spec fn names_fix(lc: Seq<char>) -> bool {
    contains_seq(lc, "fix"@) || contains_seq(lc, "bug"@) || contains_seq(lc, "issue"@)
        || contains_seq(lc, "error"@) || contains_seq(lc, "crash"@) || contains_seq(
        lc,
        "exception"@,
    )
}

/// The lower-cased content names a refactoring.
pub open spec fn names_refactoring(lc: Seq<char>) -> bool {
    contains_seq(lc, "refactor"@) || contains_seq(lc, "clean"@) || contains_seq(lc, "improve"@)
        || contains_seq(lc, "simplify"@) || contains_seq(lc, "restructure"@)
}

/// Whether a node belongs to a class.
pub open spec fn in_class(c: NodeClass, n: AffectedNodeModel) -> bool {
    let t = n.node_type;
    match c {
        NodeClass::JavaClass => t == "class"@ || t == "class_structure"@,
        NodeClass::JavaMethod => t == "method"@ || t == "overridden_method"@,
        NodeClass::JavaField => t == "field"@,
        NodeClass::ApiEndpoint => t == "api_endpoint"@,
        NodeClass::SpringComponent => t == "spring_component"@,
        NodeClass::JpaEntity => t == "jpa_entity"@,
        NodeClass::SpringOrEndpoint => t == "spring_component"@ || t == "api_endpoint"@,
        NodeClass::RustStruct => t == "struct"@ || t == "debuggable_struct"@,
        NodeClass::RustEnum => t == "enum"@,
        NodeClass::RustTrait => t == "trait"@,
        NodeClass::RustImpl => t == "impl"@,
        NodeClass::RustFunction => t == "function"@,
        NodeClass::RustMacro => t == "macro"@,
        NodeClass::TestFunction => t == "test_function"@,
        NodeClass::TraitOrImpl => t == "trait"@ || (t == "impl"@ && match n.content {
            Some(s) => contains_seq(s, "impl"@),
            None => false,
        }),
        NodeClass::Public => n.is_public,
        NodeClass::Addition => is_addition(n),
        NodeClass::Deletion => is_deletion(n),
        NodeClass::Modification => is_modification(n),
        NodeClass::Structure(k) => structure_kind(n) == k,
        NodeClass::VisibilityWord => match n.content {
            Some(s) => names_visibility(s),
            None => false,
        },
        NodeClass::BugFixWord => match n.content {
            Some(s) => names_fix(lowercase_of(s)),
            None => false,
        },
        NodeClass::RefactorWord => match n.content {
            Some(s) => names_refactoring(lowercase_of(s)),
            None => false,
        },
        NodeClass::NamesFunction => contains_seq(t, "function"@) || contains_seq(t, "method"@),
        NodeClass::NamesClass => !(contains_seq(t, "function"@) || contains_seq(t, "method"@)) && (
        contains_seq(t, "class"@) || contains_seq(t, "struct"@) || contains_seq(t, "interface"@)),
    }
}

/// The predicate of a class.
pub open spec fn class_pred(c: NodeClass) -> spec_fn(AffectedNodeModel) -> bool {
    |n: AffectedNodeModel| in_class(c, n)
}

/// Whether a node belongs to a class.
pub fn node_in_class(c: NodeClass, n: &AffectedNode) -> (res: bool)
    ensures
        res == in_class(c, n@),
{
    let t = &n.node_type;
    match c {
        NodeClass::JavaClass => string_eq_str(t, "class") || string_eq_str(t, "class_structure"),
        NodeClass::JavaMethod => string_eq_str(t, "method") || string_eq_str(t, "overridden_method"),
        NodeClass::JavaField => string_eq_str(t, "field"),
        NodeClass::ApiEndpoint => string_eq_str(t, "api_endpoint"),
        NodeClass::SpringComponent => string_eq_str(t, "spring_component"),
        NodeClass::JpaEntity => string_eq_str(t, "jpa_entity"),
        NodeClass::SpringOrEndpoint => string_eq_str(t, "spring_component") || string_eq_str(
            t,
            "api_endpoint",
        ),
        NodeClass::RustStruct => string_eq_str(t, "struct") || string_eq_str(t, "debuggable_struct"),
        NodeClass::RustEnum => string_eq_str(t, "enum"),
        NodeClass::RustTrait => string_eq_str(t, "trait"),
        NodeClass::RustImpl => string_eq_str(t, "impl"),
        NodeClass::RustFunction => string_eq_str(t, "function"),
        NodeClass::RustMacro => string_eq_str(t, "macro"),
        NodeClass::TestFunction => string_eq_str(t, "test_function"),
        NodeClass::TraitOrImpl => {
            if string_eq_str(t, "trait") {
                true
            } else if string_eq_str(t, "impl") {
                match &n.content {
                    Some(s) => {
                        let v = chars_of(s.as_str());
                        contains_str(v.as_slice(), "impl")
                    },
                    None => false,
                }
            } else {
                false
            }
        },
        NodeClass::Public => n.is_public,
        NodeClass::Addition => change_kind(n) == 0,
        NodeClass::Deletion => change_kind(n) == 1,
        NodeClass::Modification => change_kind(n) == 2,
        NodeClass::Structure(k) => structure_kind_of(n) == k,
        NodeClass::VisibilityWord => match &n.content {
            Some(s) => {
                let v = chars_of(s.as_str());
                contains_str(v.as_slice(), "public") || contains_str(v.as_slice(), "private")
                    || contains_str(v.as_slice(), "protected") || contains_str(
                    v.as_slice(),
                    "package",
                )
            },
            None => false,
        },
        NodeClass::BugFixWord => match &n.content {
            Some(s) => {
                let lc = to_lowercase(s.as_str());
                let v = chars_of(lc.as_str());
                contains_str(v.as_slice(), "fix") || contains_str(v.as_slice(), "bug")
                    || contains_str(v.as_slice(), "issue") || contains_str(v.as_slice(), "error")
                    || contains_str(v.as_slice(), "crash") || contains_str(
                    v.as_slice(),
                    "exception",
                )
            },
            None => false,
        },
        NodeClass::RefactorWord => match &n.content {
            Some(s) => {
                let lc = to_lowercase(s.as_str());
                let v = chars_of(lc.as_str());
                contains_str(v.as_slice(), "refactor") || contains_str(v.as_slice(), "clean")
                    || contains_str(v.as_slice(), "improve") || contains_str(
                    v.as_slice(),
                    "simplify",
                ) || contains_str(v.as_slice(), "restructure")
            },
            None => false,
        },
        NodeClass::NamesFunction => {
            let v = chars_of(t.as_str());
            contains_str(v.as_slice(), "function") || contains_str(v.as_slice(), "method")
        },
        NodeClass::NamesClass => {
            let v = chars_of(t.as_str());
            !(contains_str(v.as_slice(), "function") || contains_str(v.as_slice(), "method")) && (
            contains_str(v.as_slice(), "class") || contains_str(v.as_slice(), "struct")
                || contains_str(v.as_slice(), "interface"))
        },
    }
}

/// The number of nodes of a class.
pub fn count_class(nodes: &Vec<AffectedNode>, c: NodeClass) -> (res: usize)
    ensures
        res == count_nodes(node_views(nodes@), class_pred(c)),
{
    let ghost ns = node_views(nodes@);
    let mut count: usize = 0;
    let mut i: usize = 0;
    while i < nodes.len()
        invariant
            ns == node_views(nodes@),
            i <= nodes.len(),
            count == count_nodes(ns.take(i as int), class_pred(c)),
        decreases nodes.len() - i,
    {
        proof {
            lemma_count_nodes_step(ns, class_pred(c), i as int);
        }
        if node_in_class(c, &nodes[i]) {
            count = count + 1;
        }
        i = i + 1;
    }
    proof {
        assert(ns.take(i as int) =~= ns);
    }
    count
}

// ---------------------------------------------------------------------------
// File summaries
// ---------------------------------------------------------------------------

/// A one-part list when `b` holds, else an empty one.
pub open spec fn opt_part(b: bool, s: Seq<char>) -> Seq<Seq<char>> {
    if b {
        seq![s]
    } else {
        seq![]
    }
}

/// `"<n><unit>"` as a part when `n > 0`.
pub open spec fn count_part(n: nat, unit: Seq<char>) -> Seq<Seq<char>> {
    opt_part(n > 0, decimal(n) + unit)
}

/// The number of nodes of a class, in a sequence of node models.
pub open spec fn class_count(ns: Seq<AffectedNodeModel>, c: NodeClass) -> nat {
    count_nodes(ns, class_pred(c))
}

/// The closing sentence on additions, deletions and modifications.
pub open spec fn change_counts_sentence(ns: Seq<AffectedNodeModel>) -> Seq<char> {
    "。共有"@ + decimal(class_count(ns, NodeClass::Addition)) + "个新增、"@ + decimal(
        class_count(ns, NodeClass::Deletion),
    ) + "个删除、"@ + decimal(class_count(ns, NodeClass::Modification)) + "个修改"@
}

/// `"<lead><parts joined by 、>"` when there are parts, else nothing.
pub open spec fn listed(lead: Seq<char>, parts: Seq<Seq<char>>) -> Seq<char> {
    if parts.len() > 0 {
        lead + join_seqs(parts, "、"@)
    } else {
        seq![]
    }
}

/// The structures a Java summary lists.
pub open spec fn java_structure_parts(ns: Seq<AffectedNodeModel>) -> Seq<Seq<char>> {
    count_part(class_count(ns, NodeClass::JavaClass), "个类"@) + count_part(
        class_count(ns, NodeClass::JavaMethod),
        "个方法"@,
    ) + count_part(class_count(ns, NodeClass::JavaField), "个字段"@)
}

/// The framework elements a Java summary lists.
pub open spec fn java_framework_parts(ns: Seq<AffectedNodeModel>) -> Seq<Seq<char>> {
    count_part(class_count(ns, NodeClass::SpringComponent), "个Spring组件"@) + count_part(
        class_count(ns, NodeClass::JpaEntity),
        "个JPA实体"@,
    ) + count_part(class_count(ns, NodeClass::ApiEndpoint), "个API端点"@)
}

/// The summary of the changes to one Java file.
pub open spec fn java_file_summary(path: Seq<char>, ns: Seq<AffectedNodeModel>) -> Seq<char> {
    let head = "Java文件 "@ + path + " 变更分析: "@;
    if ns.len() == 0 {
        head + "未检测到结构性变更"@
    } else {
        head + listed("影响了"@, java_structure_parts(ns)) + listed(
            "。包含"@,
            java_framework_parts(ns),
        ) + change_counts_sentence(ns)
    }
}

/// The structures a Rust summary lists.
pub open spec fn rust_structure_parts(ns: Seq<AffectedNodeModel>) -> Seq<Seq<char>> {
    count_part(class_count(ns, NodeClass::RustStruct), "个结构体"@) + count_part(
        class_count(ns, NodeClass::RustEnum),
        "个枚举"@,
    ) + count_part(class_count(ns, NodeClass::RustTrait), "个特征"@) + count_part(
        class_count(ns, NodeClass::RustImpl),
        "个实现"@,
    ) + count_part(class_count(ns, NodeClass::RustFunction), "个函数"@) + count_part(
        class_count(ns, NodeClass::RustMacro),
        "个宏"@,
    )
}

/// `"<lead><n><tail>"` when `n > 0`, else nothing.
pub open spec fn count_clause(lead: Seq<char>, n: nat, tail: Seq<char>) -> Seq<char> {
    if n > 0 {
        lead + decimal(n) + tail
    } else {
        seq![]
    }
}

/// The summary of the changes to one Rust file.
pub open spec fn rust_file_summary(path: Seq<char>, ns: Seq<AffectedNodeModel>) -> Seq<char> {
    let head = "Rust文件 "@ + path + " 变更分析: "@;
    if ns.len() == 0 {
        head + "未检测到结构性变更"@
    } else {
        head + listed("影响了"@, rust_structure_parts(ns)) + count_clause(
            "。包含"@,
            class_count(ns, NodeClass::TestFunction),
            "个测试函数"@,
        ) + count_clause("。其中"@, class_count(ns, NodeClass::Public), "个为公开项"@)
            + change_counts_sentence(ns)
    }
}

/// Appends `"<n><unit>"` to `parts` when `n > 0`.
fn push_count_part(parts: &mut Vec<Vec<char>>, n: usize, unit: &str)
    ensures
        views(final(parts)@) == views(old(parts)@) + count_part(n as nat, unit@),
{
    let ghost before = views(parts@);
    if n > 0 {
        let mut p: Vec<char> = Vec::new();
        push_decimal(&mut p, n);
        extend_str(&mut p, unit);
        parts.push(p);
        assert(views(parts@) =~= before + count_part(n as nat, unit@));
    } else {
        assert(views(parts@) =~= before + count_part(n as nat, unit@));
    }
}

/// Appends `"<lead><parts joined by 、>"` to `v` when there are parts.
fn push_listed(v: &mut Vec<char>, lead: &str, parts: &Vec<Vec<char>>)
    ensures
        final(v)@ == old(v)@ + listed(lead@, views(parts@)),
{
    if parts.len() > 0 {
        let ghost v0 = v@;
        extend_str(v, lead);
        let j = join_parts(parts, "、");
        extend_chars(v, j.as_slice());
        assert(v@ =~= v0 + listed(lead@, views(parts@)));
    } else {
        assert(v@ =~= old(v)@ + listed(lead@, views(parts@)));
    }
}

/// Appends `"<lead><n><tail>"` to `v` when `n > 0`.
fn push_count_clause(v: &mut Vec<char>, lead: &str, n: usize, tail: &str)
    ensures
        final(v)@ == old(v)@ + count_clause(lead@, n as nat, tail@),
{
    if n > 0 {
        let ghost v0 = v@;
        extend_str(v, lead);
        push_decimal(v, n);
        extend_str(v, tail);
        assert(v@ =~= v0 + count_clause(lead@, n as nat, tail@));
    } else {
        assert(v@ =~= old(v)@ + count_clause(lead@, n as nat, tail@));
    }
}

/// Appends the closing sentence on additions, deletions and modifications.
fn push_change_counts(v: &mut Vec<char>, nodes: &Vec<AffectedNode>)
    ensures
        final(v)@ == old(v)@ + change_counts_sentence(node_views(nodes@)),
{
    let ghost v0 = v@;
    let additions = count_class(nodes, NodeClass::Addition);
    let deletions = count_class(nodes, NodeClass::Deletion);
    let modifications = count_class(nodes, NodeClass::Modification);
    extend_str(v, "。共有");
    push_decimal(v, additions);
    extend_str(v, "个新增、");
    push_decimal(v, deletions);
    extend_str(v, "个删除、");
    push_decimal(v, modifications);
    extend_str(v, "个修改");
    assert(v@ =~= v0 + change_counts_sentence(node_views(nodes@)));
}

/// The summary of the changes to one Java file: the structures, framework
/// elements and kinds of change among its affected nodes.
pub fn generate_java_file_summary(path: &String, nodes: &Vec<AffectedNode>) -> (res: String)
    ensures
        res@ == java_file_summary(path@, node_views(nodes@)),
{
    let ghost ns = node_views(nodes@);
    let mut v: Vec<char> = Vec::new();
    extend_str(&mut v, "Java文件 ");
    extend_string(&mut v, path);
    extend_str(&mut v, " 变更分析: ");
    if nodes.len() == 0 {
        extend_str(&mut v, "未检测到结构性变更");
        return to_string(&v);
    }
    let mut structure: Vec<Vec<char>> = Vec::new();
    push_count_part(&mut structure, count_class(nodes, NodeClass::JavaClass), "个类");
    push_count_part(&mut structure, count_class(nodes, NodeClass::JavaMethod), "个方法");
    push_count_part(&mut structure, count_class(nodes, NodeClass::JavaField), "个字段");
    assert(views(structure@) =~= java_structure_parts(ns));
    let mut framework: Vec<Vec<char>> = Vec::new();
    push_count_part(&mut framework, count_class(nodes, NodeClass::SpringComponent), "个Spring组件");
    push_count_part(&mut framework, count_class(nodes, NodeClass::JpaEntity), "个JPA实体");
    push_count_part(&mut framework, count_class(nodes, NodeClass::ApiEndpoint), "个API端点");
    assert(views(framework@) =~= java_framework_parts(ns));
    push_listed(&mut v, "影响了", &structure);
    push_listed(&mut v, "。包含", &framework);
    push_change_counts(&mut v, nodes);
    to_string(&v)
}

/// The summary of the changes to one Rust file: the structures, tests,
/// public items and kinds of change among its affected nodes.
pub fn generate_rust_file_summary(path: &String, nodes: &Vec<AffectedNode>) -> (res: String)
    ensures
        res@ == rust_file_summary(path@, node_views(nodes@)),
{
    let ghost ns = node_views(nodes@);
    let mut v: Vec<char> = Vec::new();
    extend_str(&mut v, "Rust文件 ");
    extend_string(&mut v, path);
    extend_str(&mut v, " 变更分析: ");
    if nodes.len() == 0 {
        extend_str(&mut v, "未检测到结构性变更");
        return to_string(&v);
    }
    let mut structure: Vec<Vec<char>> = Vec::new();
    push_count_part(&mut structure, count_class(nodes, NodeClass::RustStruct), "个结构体");
    push_count_part(&mut structure, count_class(nodes, NodeClass::RustEnum), "个枚举");
    push_count_part(&mut structure, count_class(nodes, NodeClass::RustTrait), "个特征");
    push_count_part(&mut structure, count_class(nodes, NodeClass::RustImpl), "个实现");
    push_count_part(&mut structure, count_class(nodes, NodeClass::RustFunction), "个函数");
    push_count_part(&mut structure, count_class(nodes, NodeClass::RustMacro), "个宏");
    assert(views(structure@) =~= rust_structure_parts(ns));
    push_listed(&mut v, "影响了", &structure);
    push_count_clause(&mut v, "。包含", count_class(nodes, NodeClass::TestFunction), "个测试函数");
    push_count_clause(&mut v, "。其中", count_class(nodes, NodeClass::Public), "个为公开项");
    push_change_counts(&mut v, nodes);
    to_string(&v)
}

// ---------------------------------------------------------------------------
// Language detection
// ---------------------------------------------------------------------------

/// The language the analyzer assigns to a path by its extension: `rs`,
/// `java`, `py` and `go` name their languages, `js`, `ts`, `jsx` and `tsx`
/// are grouped as `javascript`, and every other file (no extension included)
/// has none.
pub open spec fn analyzer_language(path: Seq<char>) -> Option<Seq<char>> {
    match path_extension_of(path) {
        Some(e) => if e == "rs"@ {
            Some("rust"@)
        } else if e == "java"@ {
            Some("java"@)
        } else if e == "py"@ {
            Some("python"@)
        } else if e == "go"@ {
            Some("go"@)
        } else if e == "js"@ || e == "ts"@ || e == "jsx"@ || e == "tsx"@ {
            Some("javascript"@)
        } else {
            None
        },
        None => None,
    }
}

/// The language of a source file, by its extension (see
/// `analyzer_language`); `None` for files the analyzer does not parse.
pub fn detect_language(path: &str) -> (res: Option<String>)
    ensures
        opt_string_view(res) == analyzer_language(path@),
{
    match path_extension(path) {
        Some(e) => {
            if string_eq_str(&e, "rs") {
                Some(String::from_str("rust"))
            } else if string_eq_str(&e, "java") {
                Some(String::from_str("java"))
            } else if string_eq_str(&e, "py") {
                Some(String::from_str("python"))
            } else if string_eq_str(&e, "go") {
                Some(String::from_str("go"))
            } else if string_eq_str(&e, "js") || string_eq_str(&e, "ts") || string_eq_str(&e, "jsx")
                || string_eq_str(&e, "tsx") {
                Some(String::from_str("javascript"))
            } else {
                None
            }
        },
        None => None,
    }
}

// ---------------------------------------------------------------------------
// Change pattern and scope
// ---------------------------------------------------------------------------

/// Some node of some file analysis belongs to the class.
pub open spec fn any_node_in(fas: Seq<FileAnalysisModel>, c: NodeClass) -> bool {
    exists|i: int, j: int|
        0 <= i < fas.len() && 0 <= j < fas[i].affected_nodes.len() && #[trigger] in_class(
            c,
            fas[i].affected_nodes[j],
        )
}

/// Whether some node of some file analysis belongs to the class.
pub fn has_node_in(fas: &Vec<FileAnalysis>, c: NodeClass) -> (res: bool)
    ensures
        res == any_node_in(analysis_views(fas@), c),
{
    let ghost av = analysis_views(fas@);
    let mut i: usize = 0;
    while i < fas.len()
        invariant
            av == analysis_views(fas@),
            i <= fas.len(),
            forall|a: int, j: int|
                0 <= a < i && 0 <= j < av[a].affected_nodes.len() ==> !#[trigger] in_class(
                    c,
                    av[a].affected_nodes[j],
                ),
        decreases fas.len() - i,
    {
        let nodes = &fas[i].affected_nodes;
        let mut j: usize = 0;
        while j < nodes.len()
            invariant
                av == analysis_views(fas@),
                i < fas.len(),
                nodes == &fas@[i as int].affected_nodes,
                av[i as int].affected_nodes == node_views(nodes@),
                j <= nodes.len(),
                forall|k: int| 0 <= k < j ==> !#[trigger] in_class(c, av[i as int].affected_nodes[k]),
            decreases nodes.len() - j,
        {
            if node_in_class(c, &nodes[j]) {
                assert(in_class(c, av[i as int].affected_nodes[j as int]));
                return true;
            }
            j = j + 1;
        }
        i = i + 1;
    }
    false
}

/// A configuration file: its path holds `config` or ends with
/// `.properties`, `.yml` or `.toml`.
pub open spec fn is_config_path(p: Seq<char>) -> bool {
    contains_seq(p, "config"@) || is_suffix_of(".properties"@, p) || is_suffix_of(".yml"@, p)
        || is_suffix_of(".toml"@, p)
}

/// Some file analysis is of a configuration file.
pub open spec fn any_config_path(fas: Seq<FileAnalysisModel>) -> bool {
    exists|i: int| 0 <= i < fas.len() && #[trigger] is_config_path(fas[i].path)
}

/// Some file analysis has a path holding `test`.
pub open spec fn any_test_path(fas: Seq<FileAnalysisModel>) -> bool {
    exists|i: int| 0 <= i < fas.len() && contains_seq(#[trigger] fas[i].path, "test"@)
}

/// Whether some file analysis is of a configuration file, and whether some
/// has a path holding `test`.
fn path_flags(fas: &Vec<FileAnalysis>) -> (res: (bool, bool))
    ensures
        res.0 == any_config_path(analysis_views(fas@)),
        res.1 == any_test_path(analysis_views(fas@)),
{
    let ghost av = analysis_views(fas@);
    let mut config = false;
    let mut test = false;
    let mut i: usize = 0;
    while i < fas.len()
        invariant
            av == analysis_views(fas@),
            i <= fas.len(),
            config == exists|a: int| 0 <= a < i && #[trigger] is_config_path(av[a].path),
            test == exists|a: int| 0 <= a < i && contains_seq(#[trigger] av[a].path, "test"@),
        decreases fas.len() - i,
    {
        let p = chars_of(fas[i].path.as_str());
        assert(p@ == av[i as int].path);
        let c = contains_str(p.as_slice(), "config") || ends_with(p.as_slice(), ".properties")
            || ends_with(p.as_slice(), ".yml") || ends_with(p.as_slice(), ".toml");
        let t = contains_str(p.as_slice(), "test");
        proof {
            if c {
                assert(is_config_path(av[i as int].path));
            }
            if t {
                assert(contains_seq(av[i as int].path, "test"@));
            }
        }
        config = config || c;
        test = test || t;
        i = i + 1;
    }
    (config, test)
}

/// The change pattern of a diff, from its file analyses and counts: Java or
/// Rust specific patterns when one of those languages dominates, then
/// configuration changes, test and bug fixes, refactorings, model and
/// behaviour changes, feature implementations, and otherwise a mixed change.
pub open spec fn change_pattern_of(
    fas: Seq<FileAnalysisModel>,
    function_changes: nat,
    type_changes: nat,
    method_changes: nat,
    interface_changes: nat,
    java_changes: nat,
    rust_changes: nat,
    total_additions: nat,
    total_deletions: nat,
) -> ChangePatternModel {
    let java_led = java_changes > 0 && java_changes > rust_changes;
    let rust_led = rust_changes > 0 && rust_changes > java_changes;
    if java_led && (any_node_in(fas, NodeClass::SpringOrEndpoint) || any_node_in(
        fas,
        NodeClass::JpaEntity,
    )) {
        ChangePatternModel::LanguageSpecificChange("JavaStructuralChange"@)
    } else if java_led && any_node_in(fas, NodeClass::VisibilityWord) {
        ChangePatternModel::LanguageSpecificChange("JavaVisibilityChange"@)
    } else if rust_led && any_node_in(fas, NodeClass::TraitOrImpl) {
        ChangePatternModel::LanguageSpecificChange("RustTraitImplementation"@)
    } else if rust_led && any_node_in(fas, NodeClass::RustMacro) {
        ChangePatternModel::LanguageSpecificChange("RustMacroChange"@)
    } else if any_config_path(fas) {
        ChangePatternModel::ConfigurationChange
    } else if any_test_path(fas) || any_node_in(fas, NodeClass::TestFunction) {
        ChangePatternModel::BugFix
    } else if any_node_in(fas, NodeClass::BugFixWord) {
        ChangePatternModel::BugFix
    } else if any_node_in(fas, NodeClass::RefactorWord) {
        ChangePatternModel::Refactoring
    } else if type_changes > 0 || interface_changes > 0 {
        if method_changes > 0 {
            ChangePatternModel::BehaviorChange
        } else {
            ChangePatternModel::ModelChange
        }
    } else if function_changes > 0 && total_additions > 0 && total_deletions > 0 && total_additions
        > total_deletions * 2 {
        ChangePatternModel::FeatureImplementation
    } else {
        ChangePatternModel::MixedChange
    }
}

/// The change pattern of a diff (see `change_pattern_of`).
pub fn determine_change_pattern(
    file_analyses: &Vec<FileAnalysis>,
    function_changes: usize,
    type_changes: usize,
    method_changes: usize,
    interface_changes: usize,
    java_changes: usize,
    rust_changes: usize,
    total_additions: usize,
    total_deletions: usize,
) -> (res: ChangePattern)
    ensures
        res@ == change_pattern_of(
            analysis_views(file_analyses@),
            function_changes as nat,
            type_changes as nat,
            method_changes as nat,
            interface_changes as nat,
            java_changes as nat,
            rust_changes as nat,
            total_additions as nat,
            total_deletions as nat,
        ),
{
    if java_changes > 0 && java_changes > rust_changes {
        if has_node_in(file_analyses, NodeClass::SpringOrEndpoint) || has_node_in(
            file_analyses,
            NodeClass::JpaEntity,
        ) {
            return ChangePattern::LanguageSpecificChange(String::from_str("JavaStructuralChange"));
        } else if has_node_in(file_analyses, NodeClass::VisibilityWord) {
            return ChangePattern::LanguageSpecificChange(String::from_str("JavaVisibilityChange"));
        }
    }
    if rust_changes > 0 && rust_changes > java_changes {
        if has_node_in(file_analyses, NodeClass::TraitOrImpl) {
            return ChangePattern::LanguageSpecificChange(String::from_str("RustTraitImplementation"));
        } else if has_node_in(file_analyses, NodeClass::RustMacro) {
            return ChangePattern::LanguageSpecificChange(String::from_str("RustMacroChange"));
        }
    }
    let (config_changes, test_paths) = path_flags(file_analyses);
    if config_changes {
        return ChangePattern::ConfigurationChange;
    }
    if test_paths || has_node_in(file_analyses, NodeClass::TestFunction) {
        return ChangePattern::BugFix;
    }
    if has_node_in(file_analyses, NodeClass::BugFixWord) {
        return ChangePattern::BugFix;
    }
    if has_node_in(file_analyses, NodeClass::RefactorWord) {
        return ChangePattern::Refactoring;
    }
    if type_changes > 0 || interface_changes > 0 {
        if method_changes > 0 {
            return ChangePattern::BehaviorChange;
        } else {
            return ChangePattern::ModelChange;
        }
    }
    if function_changes > 0 && total_additions > 0 && total_deletions > 0 && total_additions
        > total_deletions && total_additions - total_deletions > total_deletions {
        return ChangePattern::FeatureImplementation;
    }
    ChangePattern::MixedChange
}

/// The extent of a diff: major when more than two interfaces or five types
/// changed, moderate when more than twenty nodes, more than fifty added and
/// deleted nodes together, or more than three methods changed, and minor
/// otherwise.
pub open spec fn change_scope_of(
    total_affected_nodes: nat,
    total_additions: nat,
    total_deletions: nat,
    type_changes: nat,
    method_changes: nat,
    interface_changes: nat,
) -> ChangeScope {
    if interface_changes > 2 || type_changes > 5 {
        ChangeScope::Major
    } else if total_affected_nodes > 20 || total_additions + total_deletions > 50 || method_changes
        > 3 {
        ChangeScope::Moderate
    } else {
        ChangeScope::Minor
    }
}

/// The extent of a diff (see `change_scope_of`); the number of
/// modifications plays no part.
pub fn determine_change_scope(
    total_affected_nodes: usize,
    total_additions: usize,
    total_deletions: usize,
    total_modifications: usize,
    type_changes: usize,
    method_changes: usize,
    interface_changes: usize,
) -> (res: ChangeScope)
    ensures
        res == change_scope_of(
            total_affected_nodes as nat,
            total_additions as nat,
            total_deletions as nat,
            type_changes as nat,
            method_changes as nat,
            interface_changes as nat,
        ),
{
    if interface_changes > 2 || type_changes > 5 {
        return ChangeScope::Major;
    }
    if total_affected_nodes > 20 || total_additions > 50 || total_deletions > 50 - total_additions
        || method_changes > 3 {
        return ChangeScope::Moderate;
    }
    ChangeScope::Minor
}

// ---------------------------------------------------------------------------
// Laws
// ---------------------------------------------------------------------------

/// Law: every affected node falls in exactly one structural category
/// (function, type, method, interface or other), so the five structural
/// counts add up to the number of nodes.
pub proof fn law_structure_counts_cover_nodes(ns: Seq<AffectedNodeModel>)
    ensures
        class_count(ns, NodeClass::Structure(0)) + class_count(ns, NodeClass::Structure(1))
            + class_count(ns, NodeClass::Structure(2)) + class_count(ns, NodeClass::Structure(3))
            + class_count(ns, NodeClass::Structure(4)) == ns.len(),
    decreases ns.len(),
{
    if ns.len() > 0 {
        law_structure_counts_cover_nodes(ns.drop_last());
    }
}

/// Law: a node records at most one kind of change, so the numbers of
/// additions, deletions and modifications together never exceed the number
/// of nodes.
pub proof fn law_change_counts_within_nodes(ns: Seq<AffectedNodeModel>)
    ensures
        class_count(ns, NodeClass::Addition) + class_count(ns, NodeClass::Deletion) + class_count(
            ns,
            NodeClass::Modification,
        ) <= ns.len(),
    decreases ns.len(),
{
    if ns.len() > 0 {
        law_change_counts_within_nodes(ns.drop_last());
    }
}

} // verus!
