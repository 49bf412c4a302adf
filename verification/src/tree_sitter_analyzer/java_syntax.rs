//! What the Java analysis reads from Java syntax nodes: visibility, the
//! declarations of a file, and the package, class name, imports, relations
//! and methods that the project model records.

use vstd::prelude::*;
use vstd::string::StringExecFns;
use crate::errors::TreeSitterError;
use crate::text::{
    contains_seq, is_prefix_of, opt_string_view, path_file_stem, path_file_stem_of, starts_with,
    chars_of, string_eq_str, string_views, trim_seq,
};
use crate::tree_sitter_analyzer::java::{
    param_views, method_views, relation_views, JavaClassRelation, JavaClassRelationModel, JavaMethod,
    JavaMethodModel, JavaMethodParam, JavaMethodParamModel, JavaRelationType,
};
use crate::tree_sitter_analyzer::model::{AffectedNode, AffectedNodeModel, node_views};
use crate::tree_sitter_analyzer::syntax::{
    analyzer_node_is_public, child_in_field, child_index_in_field, child_index_of_kind, child_of_kind,
    child_text_in_field, declared_affected_node, declared_node, field_text,
    is_syntax_node_public, kind_index_from, or_default, text_contains, trimmed, SyntaxCapture,
    SyntaxMatch, SyntaxNode,
};

verus! {

/// The query whose `package.name` capture is a file's package.
pub const JAVA_PACKAGE_NAME_QUERY: &'static str = "(package_declaration (scoped_identifier) @package.name)";

/// The query whose captures are a file's imports.
pub const JAVA_IMPORT_QUERY: &'static str = "(import_declaration name: (_) @import.name)";

/// The query whose `name` captures are the names of a file's classes,
/// interfaces and enums.
pub const JAVA_CLASS_NAME_QUERY: &'static str = "
        (class_declaration name: (identifier) @name)
        (interface_declaration name: (identifier) @name)
        (enum_declaration name: (identifier) @name)
    ";

/// The query whose captures are the classes a file's classes extend.
pub const JAVA_EXTENDS_QUERY: &'static str = "(superclass (type_identifier) @type)";

/// The query whose captures are the interfaces a file's classes implement.
pub const JAVA_IMPLEMENTS_QUERY: &'static str = "(interfaces (type_list (type_identifier) @type))";

/// The query whose matches describe a file's methods and constructors.
pub const JAVA_METHOD_QUERY: &'static str = "
        (method_declaration
            type: (_) @return.type
            name: (identifier) @method.name
            parameters: (formal_parameters) @method.parameters
            body: (_)? @method.body
            modifiers: _* @method.modifiers) @method.full
        (constructor_declaration
            name: (identifier) @constructor.name
            parameters: (formal_parameters) @constructor.parameters
            body: (_) @constructor.body
            modifiers: _* @constructor.modifiers) @constructor.full
    ";

// ---------------------------------------------------------------------------
// Visibility
// ---------------------------------------------------------------------------

/// Whether a Java node is public: by its first `modifiers` child, which must
/// contain `public`; without one, only a method declared in an interface
/// body whose text mentions neither `private` nor `static`.
pub open spec fn java_node_is_public(n: SyntaxNode) -> bool {
    match child_of_kind(n, "modifiers"@) {
        Some(m) => contains_seq(m.text@, "public"@),
        None => n.kind@ == "method_declaration"@ && (match n.parent_kind {
            Some(p) => p@ == "interface_body"@,
            None => false,
        }) && !contains_seq(n.text@, "private"@) && !contains_seq(n.text@, "static"@),
    }
}

/// Whether a Java node is public (see `java_node_is_public`).
pub fn is_java_node_public_impl(node: &SyntaxNode) -> (res: bool)
    ensures
        res == java_node_is_public(*node),
{
    match child_index_of_kind(node, "modifiers") {
        Some(i) => text_contains(&node.children[i].text, "public"),
        None => {
            let in_interface = match &node.parent_kind {
                Some(p) => string_eq_str(p, "interface_body"),
                None => false,
            };
            string_eq_str(&node.kind, "method_declaration") && in_interface && !text_contains(
                &node.text,
                "private",
            ) && !text_contains(&node.text, "static")
        },
    }
}

/// The name of a class declaration: the text of its `name` field.
pub fn extract_java_class_name_from_node(class_node: &SyntaxNode) -> (res: Option<String>)
    ensures
        opt_string_view(res) == field_text(*class_node, "name"@),
{
    child_text_in_field(class_node, "name")
}

// ---------------------------------------------------------------------------
// Declarations of a Java file
// ---------------------------------------------------------------------------

/// The name of a field declaration: the `name` of its `declarator`.
pub open spec fn declarator_name(n: SyntaxNode) -> Option<Seq<char>> {
    match child_in_field(n, "declarator"@) {
        Some(d) => field_text(d, "name"@),
        None => None,
    }
}

/// The node type and name a Java capture declares, if any: types and
/// members by their `name` field (or `Unknown<Kind>`), fields by their
/// declarator's name, and packages by their second child.
pub open spec fn java_declaration(c: SyntaxCapture) -> Option<(Seq<char>, Seq<char>)> {
    let n = c.node;
    let cn = c.name@;
    if cn == "class.declaration"@ {
        Some(("class"@, or_default(field_text(n, "name"@), "UnknownClass"@)))
    } else if cn == "interface.declaration"@ {
        Some(("interface"@, or_default(field_text(n, "name"@), "UnknownInterface"@)))
    } else if cn == "enum.declaration"@ {
        Some(("enum"@, or_default(field_text(n, "name"@), "UnknownEnum"@)))
    } else if cn == "annotation_type.declaration"@ {
        Some(("annotation_type"@, or_default(field_text(n, "name"@), "UnknownAnnotationType"@)))
    } else if cn == "method.declaration"@ {
        Some(("method"@, or_default(field_text(n, "name"@), "UnknownMethod"@)))
    } else if cn == "constructor.declaration"@ {
        Some(("constructor"@, or_default(field_text(n, "name"@), "UnknownConstructor"@)))
    } else if cn == "field.declaration"@ {
        Some(("field"@, or_default(declarator_name(n), "UnknownField"@)))
    } else if cn == "package.declaration"@ {
        Some(
            (
                "package"@,
                if n.children@.len() > 1 {
                    n.children@[1].text@
                } else {
                    "UnknownPackage"@
                },
            ),
        )
    } else {
        None
    }
}

/// The nodes the captures declare, in order; a declaration named
/// `UnknownPackage` is left out.
pub open spec fn java_capture_nodes(cs: Seq<SyntaxCapture>) -> Seq<AffectedNodeModel>
    decreases cs.len(),
{
    if cs.len() == 0 {
        seq![]
    } else {
        java_capture_nodes(cs.drop_last()) + match java_declaration(cs.last()) {
            Some(d) => if d.1 != "UnknownPackage"@ {
                seq![declared_node("java"@, d.0, d.1, cs.last().node)]
            } else {
                seq![]
            },
            None => seq![],
        }
    }
}

/// The nodes the matches declare, match after match.
pub open spec fn java_match_nodes(ms: Seq<SyntaxMatch>) -> Seq<AffectedNodeModel>
    decreases ms.len(),
{
    if ms.len() == 0 {
        seq![]
    } else {
        java_match_nodes(ms.drop_last()) + java_capture_nodes(ms.last().captures@)
    }
}

/// The text of the node's `name` field, or the given stand-in.
fn name_or(node: &SyntaxNode, stand_in: &str) -> (res: String)
    ensures
        res@ == or_default(field_text(*node, "name"@), stand_in@),
{
    match child_text_in_field(node, "name") {
        Some(t) => t,
        None => String::from_str(stand_in),
    }
}

/// The node type and name a Java capture declares (see `java_declaration`).
fn java_capture_declaration(c: &SyntaxCapture) -> (res: Option<(String, String)>)
    ensures
        match res {
            Some(d) => java_declaration(*c) == Some((d.0@, d.1@)),
            None => java_declaration(*c) is None,
        },
{
    let cn = &c.name;
    let n = &c.node;
    if string_eq_str(cn, "class.declaration") {
        Some((String::from_str("class"), name_or(n, "UnknownClass")))
    } else if string_eq_str(cn, "interface.declaration") {
        Some((String::from_str("interface"), name_or(n, "UnknownInterface")))
    } else if string_eq_str(cn, "enum.declaration") {
        Some((String::from_str("enum"), name_or(n, "UnknownEnum")))
    } else if string_eq_str(cn, "annotation_type.declaration") {
        Some((String::from_str("annotation_type"), name_or(n, "UnknownAnnotationType")))
    } else if string_eq_str(cn, "method.declaration") {
        Some((String::from_str("method"), name_or(n, "UnknownMethod")))
    } else if string_eq_str(cn, "constructor.declaration") {
        Some((String::from_str("constructor"), name_or(n, "UnknownConstructor")))
    } else if string_eq_str(cn, "field.declaration") {
        let name = match child_index_in_field(n, "declarator") {
            Some(d) => child_text_in_field(&n.children[d], "name"),
            None => None,
        };
        match name {
            Some(t) => Some((String::from_str("field"), t)),
            None => Some((String::from_str("field"), String::from_str("UnknownField"))),
        }
    } else if string_eq_str(cn, "package.declaration") {
        if n.children.len() > 1 {
            Some((String::from_str("package"), n.children[1].text.clone()))
        } else {
            Some((String::from_str("package"), String::from_str("UnknownPackage")))
        }
    } else {
        None
    }
}

/// The declarations of a Java file (see `java_match_nodes`), from the
/// matches of the Java declaration query over it.
pub fn analyze_java_file_structure_impl(matches: &Vec<SyntaxMatch>) -> (res: Vec<AffectedNode>)
    ensures
        node_views(res@) == java_match_nodes(matches@),
{
    let mut out: Vec<AffectedNode> = Vec::new();
    let mut i: usize = 0;
    while i < matches.len()
        invariant
            i <= matches@.len(),
            node_views(out@) == java_match_nodes(matches@.take(i as int)),
        decreases matches.len() - i,
    {
        let cs = &matches[i].captures;
        let ghost before = node_views(out@);
        let mut j: usize = 0;
        while j < cs.len()
            invariant
                j <= cs@.len(),
                node_views(out@) == before + java_capture_nodes(cs@.take(j as int)),
            decreases cs.len() - j,
        {
            assert(cs@.take(j + 1).drop_last() =~= cs@.take(j as int));
            match java_capture_declaration(&cs[j]) {
                Some(d) => {
                    if !string_eq_str(&d.1, "UnknownPackage") {
                        let node = declared_affected_node("java", d.0, d.1, &cs[j].node);
                        let ghost prev = node_views(out@);
                        let ghost nv = node@;
                        out.push(node);
                        assert(node_views(out@) =~= prev.push(nv));
                    }
                },
                None => {},
            }
            assert(node_views(out@) =~= before + java_capture_nodes(cs@.take(j + 1)));
            j = j + 1;
        }
        assert(cs@.take(j as int) =~= cs@);
        assert(matches@.take(i + 1).drop_last() =~= matches@.take(i as int));
        i = i + 1;
    }
    assert(matches@.take(i as int) =~= matches@);
    out
}

// ---------------------------------------------------------------------------
// Package, class name, imports and relations
// ---------------------------------------------------------------------------

/// The trimmed texts of the captures, in order.
pub open spec fn capture_texts(cs: Seq<SyntaxCapture>) -> Seq<Seq<char>>
    decreases cs.len(),
{
    if cs.len() == 0 {
        seq![]
    } else {
        capture_texts(cs.drop_last()).push(trim_seq(cs.last().node.text@))
    }
}

/// The trimmed texts of the captures of the matches, match after match.
pub open spec fn match_texts(ms: Seq<SyntaxMatch>) -> Seq<Seq<char>>
    decreases ms.len(),
{
    if ms.len() == 0 {
        seq![]
    } else {
        match_texts(ms.drop_last()) + capture_texts(ms.last().captures@)
    }
}

/// Appends the trimmed texts of the captures of the matches to `out`.
fn push_match_texts(out: &mut Vec<String>, matches: &Vec<SyntaxMatch>)
    ensures
        string_views(final(out)@) == string_views(old(out)@) + match_texts(matches@),
{
    let ghost start = string_views(out@);
    let mut i: usize = 0;
    while i < matches.len()
        invariant
            i <= matches@.len(),
            string_views(out@) == start + match_texts(matches@.take(i as int)),
        decreases matches.len() - i,
    {
        let cs = &matches[i].captures;
        let ghost before = string_views(out@);
        let mut j: usize = 0;
        while j < cs.len()
            invariant
                j <= cs@.len(),
                string_views(out@) == before + capture_texts(cs@.take(j as int)),
            decreases cs.len() - j,
        {
            assert(cs@.take(j + 1).drop_last() =~= cs@.take(j as int));
            let t = trimmed(&cs[j].node.text);
            let ghost prev = string_views(out@);
            let ghost tv = t@;
            out.push(t);
            assert(string_views(out@) =~= prev.push(tv));
            assert(string_views(out@) =~= before + capture_texts(cs@.take(j + 1)));
            j = j + 1;
        }
        assert(cs@.take(j as int) =~= cs@);
        assert(matches@.take(i + 1).drop_last() =~= matches@.take(i as int));
        assert(string_views(out@) =~= start + match_texts(matches@.take(i + 1)));
        i = i + 1;
    }
    assert(matches@.take(i as int) =~= matches@);
}

/// The imports of a Java file: the trimmed text of every capture of the
/// import query's matches, in order.
pub fn extract_java_imports(matches: &Vec<SyntaxMatch>) -> (res: Vec<String>)
    ensures
        string_views(res@) == match_texts(matches@),
{
    let mut out: Vec<String> = Vec::new();
    push_match_texts(&mut out, matches);
    assert(string_views(out@) =~= match_texts(matches@));
    out
}

/// Relations of one kind to each of the given classes, in order.
pub open spec fn relations_to(kind: JavaRelationType, targets: Seq<Seq<char>>) -> Seq<JavaClassRelationModel> {
    targets.map_values(|t: Seq<char>| JavaClassRelationModel { relation_type: kind, target_class: t })
}

/// Appends relations of one kind to the given classes.
fn push_relations(out: &mut Vec<JavaClassRelation>, kind: JavaRelationType, targets: Vec<String>)
    ensures
        relation_views(final(out)@) == relation_views(old(out)@) + relations_to(kind, string_views(targets@)),
{
    let ghost start = relation_views(out@);
    let ghost ts = string_views(targets@);
    let mut i: usize = 0;
    while i < targets.len()
        invariant
            i <= targets@.len(),
            ts == string_views(targets@),
            relation_views(out@) == start + relations_to(kind, ts.take(i as int)),
        decreases targets.len() - i,
    {
        let r = JavaClassRelation { relation_type: kind, target_class: targets[i].clone() };
        let ghost prev = relation_views(out@);
        let ghost rv = r@;
        out.push(r);
        assert(relation_views(out@) =~= prev.push(rv));
        assert(relations_to(kind, ts.take(i + 1)) =~= relations_to(kind, ts.take(i as int)).push(rv));
        i = i + 1;
    }
    assert(ts.take(i as int) =~= ts);
}

/// The relations of a Java class: an `Extends` for each capture of the
/// superclass query's matches, then an `Implements` for each capture of the
/// interface query's matches, each naming the capture's trimmed text.
pub fn extract_java_class_relations(extends_matches: &Vec<SyntaxMatch>, implements_matches: &Vec<SyntaxMatch>) -> (res: Vec<JavaClassRelation>)
    ensures
        relation_views(res@) == relations_to(JavaRelationType::Extends, match_texts(extends_matches@))
            + relations_to(JavaRelationType::Implements, match_texts(implements_matches@)),
{
    let mut out: Vec<JavaClassRelation> = Vec::new();
    let extends = extract_java_imports(extends_matches);
    let implements = extract_java_imports(implements_matches);
    push_relations(&mut out, JavaRelationType::Extends, extends);
    push_relations(&mut out, JavaRelationType::Implements, implements);
    assert(relation_views(out@) =~= relations_to(JavaRelationType::Extends, match_texts(extends_matches@))
        + relations_to(JavaRelationType::Implements, match_texts(implements_matches@)));
    out
}

/// The position of the first capture from `i` on named `a` or `b`.
pub open spec fn capture_index_from(cs: Seq<SyntaxCapture>, a: Seq<char>, b: Seq<char>, i: int) -> Option<int>
    decreases cs.len() - i,
{
    if i < 0 || i >= cs.len() {
        None
    } else if cs[i].name@ == a || cs[i].name@ == b {
        Some(i)
    } else {
        capture_index_from(cs, a, b, i + 1)
    }
}

/// The position of the first capture named `a` or `b`.
fn capture_index_named(cs: &Vec<SyntaxCapture>, a: &str, b: &str) -> (res: Option<usize>)
    ensures
        match res {
            Some(i) => i < cs@.len() && capture_index_from(cs@, a@, b@, 0) == Some(i as int),
            None => capture_index_from(cs@, a@, b@, 0) is None,
        },
{
    let mut i: usize = 0;
    while i < cs.len()
        invariant
            i <= cs@.len(),
            capture_index_from(cs@, a@, b@, 0) == capture_index_from(cs@, a@, b@, i as int),
        decreases cs.len() - i,
    {
        if string_eq_str(&cs[i].name, a) || string_eq_str(&cs[i].name, b) {
            return Some(i);
        }
        i = i + 1;
    }
    None
}

/// The text of the first capture named `name`, over the matches in order.
pub open spec fn first_named_text(ms: Seq<SyntaxMatch>, name: Seq<char>) -> Option<Seq<char>>
    decreases ms.len(),
{
    if ms.len() == 0 {
        None
    } else {
        match capture_index_from(ms[0].captures@, name, name, 0) {
            Some(k) => Some(ms[0].captures@[k].node.text@),
            None => first_named_text(ms.drop_first(), name),
        }
    }
}

/// The text of the first capture named `name` (see `first_named_text`).
fn first_capture_text(matches: &Vec<SyntaxMatch>, name: &str) -> (res: Option<String>)
    ensures
        opt_string_view(res) == first_named_text(matches@, name@),
{
    let mut i: usize = 0;
    assert(matches@.skip(0) =~= matches@);
    while i < matches.len()
        invariant
            i <= matches@.len(),
            first_named_text(matches@, name@) == first_named_text(matches@.skip(i as int), name@),
        decreases matches.len() - i,
    {
        assert(matches@.skip(i as int)[0] == matches@[i as int]);
        assert(matches@.skip(i as int).drop_first() =~= matches@.skip(i + 1));
        match capture_index_named(&matches[i].captures, name, name) {
            Some(k) => {
                return Some(matches[i].captures[k].node.text.clone());
            },
            None => {},
        }
        i = i + 1;
    }
    assert(matches@.skip(i as int) =~= Seq::<SyntaxMatch>::empty());
    None
}

/// The package of a Java file: the text of the first `package.name` capture
/// of the package query's matches; a query error where there is none.
pub fn extract_java_package_name(matches: &Vec<SyntaxMatch>) -> (res: Result<String, TreeSitterError>)
    ensures
        match first_named_text(matches@, "package.name"@) {
            Some(t) => res matches Ok(s) && s@ == t,
            None => res matches Err(TreeSitterError::QueryError(m)) && m@ == "Java package name not found"@,
        },
{
    match first_capture_text(matches, "package.name") {
        Some(t) => Ok(t),
        None => Err(TreeSitterError::QueryError(String::from_str("Java package name not found"))),
    }
}

/// The class name of a Java file: the trimmed text of the first `name`
/// capture of the class-name query's matches; else the stem of the file's
/// path; a parse error where there is neither.
pub fn extract_java_class_name(matches: &Vec<SyntaxMatch>, path: &str) -> (res: Result<String, TreeSitterError>)
    ensures
        match first_named_text(matches@, "name"@) {
            Some(t) => res matches Ok(s) && s@ == trim_seq(t),
            None => match path_file_stem_of(path@) {
                Some(stem) => res matches Ok(s) && s@ == stem,
                None => res matches Err(TreeSitterError::ParseError(m)) && m@
                    == "Failed to extract Java class name from AST or filename"@,
            },
        },
{
    match first_capture_text(matches, "name") {
        Some(t) => Ok(trimmed(&t)),
        None => match path_file_stem(path) {
            Some(stem) => Ok(stem),
            None => Err(
                TreeSitterError::ParseError(
                    String::from_str("Failed to extract Java class name from AST or filename"),
                ),
            ),
        },
    }
}

// ---------------------------------------------------------------------------
// Methods
// ---------------------------------------------------------------------------

/// The parameter a `formal_parameter` node declares: it has a `type` field
/// and, under `name`, an `identifier`; name and type are their trimmed
/// texts.
pub open spec fn formal_param(c: SyntaxNode) -> Option<JavaMethodParamModel> {
    if c.kind@ == "formal_parameter"@ {
        match (child_in_field(c, "type"@), child_in_field(c, "name"@)) {
            (Some(t), Some(nm)) => if nm.kind@ == "identifier"@ {
                Some(JavaMethodParamModel { name: trim_seq(nm.text@), param_type: trim_seq(t.text@) })
            } else {
                None
            },
            _ => None,
        }
    } else {
        None
    }
}

/// The parameters the nodes declare, in order.
pub open spec fn formal_params(cs: Seq<SyntaxNode>) -> Seq<JavaMethodParamModel>
    decreases cs.len(),
{
    if cs.len() == 0 {
        seq![]
    } else {
        formal_params(cs.drop_last()) + match formal_param(cs.last()) {
            Some(p) => seq![p],
            None => seq![],
        }
    }
}

/// The parameter a node declares (see `formal_param`).
fn formal_parameter(c: &SyntaxNode) -> (res: Option<JavaMethodParam>)
    ensures
        match res {
            Some(p) => formal_param(*c) == Some(p@),
            None => formal_param(*c) is None,
        },
{
    if !string_eq_str(&c.kind, "formal_parameter") {
        return None;
    }
    match (child_index_in_field(c, "type"), child_index_in_field(c, "name")) {
        (Some(t), Some(n)) => {
            if string_eq_str(&c.children[n].kind, "identifier") {
                Some(
                    JavaMethodParam {
                        name: trimmed(&c.children[n].text),
                        param_type: trimmed(&c.children[t].text),
                    },
                )
            } else {
                None
            }
        },
        _ => None,
    }
}

/// The parameters of a method: those its `formal_parameters` node's
/// children declare (see `formal_param`), in order.
pub fn parse_java_method_parameters(params_node: &SyntaxNode) -> (res: Vec<JavaMethodParam>)
    ensures
        param_views(res@) == formal_params(params_node.children@),
{
    let cs = &params_node.children;
    let mut out: Vec<JavaMethodParam> = Vec::new();
    let mut i: usize = 0;
    while i < cs.len()
        invariant
            i <= cs@.len(),
            param_views(out@) == formal_params(cs@.take(i as int)),
        decreases cs.len() - i,
    {
        assert(cs@.take(i + 1).drop_last() =~= cs@.take(i as int));
        match formal_parameter(&cs[i]) {
            Some(p) => {
                let ghost prev = param_views(out@);
                let ghost pv = p@;
                out.push(p);
                assert(param_views(out@) =~= prev.push(pv));
            },
            None => {},
        }
        assert(param_views(out@) =~= formal_params(cs@.take(i + 1)));
        i = i + 1;
    }
    assert(cs@.take(i as int) =~= cs@);
    out
}

/// Whether one of the node's `modifiers` children has a child of kind `k`.
pub open spec fn modifiers_have(n: SyntaxNode, k: Seq<char>) -> bool {
    exists|i: int|
        0 <= i < n.children@.len() && n.children@[i].kind@ == "modifiers"@ && (kind_index_from(
            (#[trigger] n.children@[i]).children@,
            k,
            0,
        ) is Some)
}

/// The trimmed texts of the `annotation` nodes, in order.
pub open spec fn annotation_texts(cs: Seq<SyntaxNode>) -> Seq<Seq<char>>
    decreases cs.len(),
{
    if cs.len() == 0 {
        seq![]
    } else {
        annotation_texts(cs.drop_last()) + if cs.last().kind@ == "annotation"@ {
            seq![trim_seq(cs.last().text@)]
        } else {
            seq![]
        }
    }
}

/// The visibility, `static` and `abstract` marks, and annotations of a Java
/// declaration: public by the analyzer's rule, `static` or `abstract` where
/// a `modifiers` child holds that keyword, and the trimmed texts of its
/// `annotation` children.
pub fn extract_modifier_info(node: &SyntaxNode) -> (res: (bool, bool, bool, Vec<String>))
    ensures
        res.0 == analyzer_node_is_public("java"@, *node),
        res.1 == modifiers_have(*node, "static"@),
        res.2 == modifiers_have(*node, "abstract"@),
        string_views(res.3@) == annotation_texts(node.children@),
{
    let is_public = is_syntax_node_public("java", node);
    let cs = &node.children;
    let mut is_static = false;
    let mut is_abstract = false;
    let mut annotations: Vec<String> = Vec::new();
    let mut i: usize = 0;
    while i < cs.len()
        invariant
            i <= cs@.len(),
            cs@ == node.children@,
            is_static == exists|j: int|
                0 <= j < i && cs@[j].kind@ == "modifiers"@ && (kind_index_from(
                    (#[trigger] cs@[j]).children@,
                    "static"@,
                    0,
                ) is Some),
            is_abstract == exists|j: int|
                0 <= j < i && cs@[j].kind@ == "modifiers"@ && (kind_index_from(
                    (#[trigger] cs@[j]).children@,
                    "abstract"@,
                    0,
                ) is Some),
            string_views(annotations@) == annotation_texts(cs@.take(i as int)),
        decreases cs.len() - i,
    {
        assert(cs@.take(i + 1).drop_last() =~= cs@.take(i as int));
        let c = &cs[i];
        if string_eq_str(&c.kind, "modifiers") {
            if child_index_of_kind(c, "static").is_some() {
                is_static = true;
            }
            if child_index_of_kind(c, "abstract").is_some() {
                is_abstract = true;
            }
        }
        if string_eq_str(&c.kind, "annotation") {
            let t = trimmed(&c.text);
            let ghost prev = string_views(annotations@);
            let ghost tv = t@;
            annotations.push(t);
            assert(string_views(annotations@) =~= prev.push(tv));
        }
        assert(string_views(annotations@) =~= annotation_texts(cs@.take(i + 1)));
        i = i + 1;
    }
    assert(cs@.take(i as int) =~= cs@);
    (is_public, is_static, is_abstract, annotations)
}

/// The method or constructor of a match, given the positions of its full
/// declaration and its name among the captures.
pub open spec fn java_method_at(cs: Seq<SyntaxCapture>, full: int, name_at: int) -> JavaMethodModel {
    let n = cs[full].node;
    let is_constructor = is_prefix_of("constructor"@, cs[0].name@);
    let name = cs[name_at].node.text@;
    JavaMethodModel {
        name,
        return_type: if is_constructor {
            name
        } else {
            match capture_index_from(cs, "return.type"@, "return.type"@, 0) {
                Some(r) => cs[r].node.text@,
                None => "void"@,
            }
        },
        parameters: match capture_index_from(cs, "method.parameters"@, "constructor.parameters"@, 0) {
            Some(p) => formal_params(cs[p].node.children@),
            None => seq![],
        },
        is_public: analyzer_node_is_public("java"@, n),
        is_static: modifiers_have(n, "static"@),
        is_abstract: modifiers_have(n, "abstract"@),
        is_constructor,
        annotations: annotation_texts(n.children@),
    }
}

/// The method or constructor a match of the method query describes: none
/// without a `method.full`/`constructor.full` capture or without a
/// `method.name`/`constructor.name` capture. A match whose first capture's
/// name begins with `constructor` is a constructor, whose return type is its
/// name; a method's is its `return.type` capture or `void`.
pub open spec fn java_method_of(cs: Seq<SyntaxCapture>) -> Option<JavaMethodModel> {
    match capture_index_from(cs, "method.full"@, "constructor.full"@, 0) {
        None => None,
        Some(f) => match capture_index_from(cs, "method.name"@, "constructor.name"@, 0) {
            None => None,
            Some(k) => Some(java_method_at(cs, f, k)),
        },
    }
}

/// The methods and constructors the matches describe, in order.
pub open spec fn java_methods(ms: Seq<SyntaxMatch>) -> Seq<JavaMethodModel>
    decreases ms.len(),
{
    if ms.len() == 0 {
        seq![]
    } else {
        java_methods(ms.drop_last()) + match java_method_of(ms.last().captures@) {
            Some(m) => seq![m],
            None => seq![],
        }
    }
}

/// The method or constructor of one match (see `java_method_of`).
fn java_method_of_match(cs: &Vec<SyntaxCapture>) -> (res: Option<JavaMethod>)
    ensures
        match res {
            Some(m) => java_method_of(cs@) == Some(m@),
            None => java_method_of(cs@) is None,
        },
{
    let f = match capture_index_named(cs, "method.full", "constructor.full") {
        Some(f) => f,
        None => return None,
    };
    let k = match capture_index_named(cs, "method.name", "constructor.name") {
        Some(k) => k,
        None => return None,
    };
    let first = chars_of(cs[0].name.as_str());
    let is_constructor = starts_with(first.as_slice(), "constructor");
    let name = cs[k].node.text.clone();
    let return_type = if is_constructor {
        name.clone()
    } else {
        match capture_index_named(cs, "return.type", "return.type") {
            Some(r) => cs[r].node.text.clone(),
            None => String::from_str("void"),
        }
    };
    let parameters = match capture_index_named(cs, "method.parameters", "constructor.parameters") {
        Some(p) => parse_java_method_parameters(&cs[p].node),
        None => Vec::new(),
    };
    let (is_public, is_static, is_abstract, annotations) = extract_modifier_info(&cs[f].node);
    let m = JavaMethod {
        name,
        return_type,
        parameters,
        is_public,
        is_static,
        is_abstract,
        is_constructor,
        annotations,
    };
    assert(m@.parameters =~= java_method_at(cs@, f as int, k as int).parameters);
    Some(m)
}

/// The methods and constructors of a Java file (see `java_methods`), from
/// the matches of the method query over it.
pub fn extract_java_methods(matches: &Vec<SyntaxMatch>) -> (res: Vec<JavaMethod>)
    ensures
        method_views(res@) == java_methods(matches@),
{
    let mut out: Vec<JavaMethod> = Vec::new();
    let mut i: usize = 0;
    while i < matches.len()
        invariant
            i <= matches@.len(),
            method_views(out@) == java_methods(matches@.take(i as int)),
        decreases matches.len() - i,
    {
        assert(matches@.take(i + 1).drop_last() =~= matches@.take(i as int));
        match java_method_of_match(&matches[i].captures) {
            Some(m) => {
                let ghost prev = method_views(out@);
                let ghost mv = m@;
                out.push(m);
                assert(method_views(out@) =~= prev.push(mv));
            },
            None => {},
        }
        assert(method_views(out@) =~= java_methods(matches@.take(i + 1)));
        i = i + 1;
    }
    assert(matches@.take(i as int) =~= matches@);
    out
}

} // verus!
