//! Rust-specific change patterns, the query for Rust declarations, and the
//! declarations and visibility read from Rust syntax nodes.

use vstd::prelude::*;
use vstd::string::StringExecFns;
use crate::text::{chars_of, extend_str, extend_string, is_prefix_of, starts_with, string_eq_str, to_string};
use crate::tree_sitter_analyzer::model::{AffectedNode, AffectedNodeModel, ChangePattern, ChangePatternModel, node_views};
use crate::tree_sitter_analyzer::syntax::{
    child_text_in_field, declared_affected_node, declared_node, field_text, SyntaxCapture,
    SyntaxMatch, SyntaxNode,
};

verus! {

/// Kinds of change particular to Rust.
#[derive(Debug, Clone, Copy, PartialEq, Eq, Structural)]
pub enum RustChangePattern {
    TraitImplementation,
    MacroChange,
    StructuralChange,
    VisibilityChange,
    LifetimeChange,
}

/// The name under which a Rust change pattern is reported.
pub open spec fn rust_pattern_name(p: RustChangePattern) -> Seq<char> {
    match p {
        RustChangePattern::TraitImplementation => "RustTraitImplementation"@,
        RustChangePattern::MacroChange => "RustMacroChange"@,
        RustChangePattern::StructuralChange => "RustStructuralChange"@,
        RustChangePattern::VisibilityChange => "RustVisibilityChange"@,
        RustChangePattern::LifetimeChange => "RustLifetimeChange"@,
    }
}

/// The generic change pattern for a Rust one.
pub fn to_generic_change_pattern(rust_pattern: RustChangePattern) -> (res: ChangePattern)
    ensures
        res@ == ChangePatternModel::LanguageSpecificChange(rust_pattern_name(rust_pattern)),
{
    ChangePattern::LanguageSpecificChange(
        match rust_pattern {
            RustChangePattern::TraitImplementation => "RustTraitImplementation".to_string(),
            RustChangePattern::MacroChange => "RustMacroChange".to_string(),
            RustChangePattern::StructuralChange => "RustStructuralChange".to_string(),
            RustChangePattern::VisibilityChange => "RustVisibilityChange".to_string(),
            RustChangePattern::LifetimeChange => "RustLifetimeChange".to_string(),
        },
    )
}

/// The tree-sitter query that captures Rust declarations.
pub open spec fn rust_query_pattern() -> Seq<char> {
    "
    (function_item) @function
    (struct_item) @struct
    (enum_item) @enum
    (trait_item) @trait
    (impl_item) @impl_item
    (mod_item) @module
    (const_item) @const
    (static_item) @static
    (type_item) @type_alias  ; type alias
    (macro_definition) @macro_definition
    (use_declaration) @use
    ; (attribute_item) @attribute ; Attributes might be too noisy if captured this way
    "@
}

/// The query that captures Rust declarations.
pub fn get_rust_query_pattern_str() -> (res: &'static str)
    ensures
        res@ == rust_query_pattern(),
{
    "
    (function_item) @function
    (struct_item) @struct
    (enum_item) @enum
    (trait_item) @trait
    (impl_item) @impl_item
    (mod_item) @module
    (const_item) @const
    (static_item) @static
    (type_item) @type_alias  ; type alias
    (macro_definition) @macro_definition
    (use_declaration) @use
    ; (attribute_item) @attribute ; Attributes might be too noisy if captured this way
    "
}

// ---------------------------------------------------------------------------
// Visibility
// ---------------------------------------------------------------------------

/// Whether a child marks a Rust item public: a `visibility_modifier` whose
/// text begins with `pub`, or a `pub` keyword node whose text is `pub`.
pub open spec fn marks_rust_public(c: SyntaxNode) -> bool {
    (c.kind@ == "visibility_modifier"@ && is_prefix_of("pub"@, c.text@)) || (c.kind@ == "pub"@
        && c.text@ == "pub"@)
}

/// Whether a Rust node is public: one of its children marks it so, or it is
/// itself a `visibility_modifier` whose text begins with `pub`.
pub open spec fn rust_node_is_public(n: SyntaxNode) -> bool {
    (exists|i: int| 0 <= i < n.children@.len() && marks_rust_public(#[trigger] n.children@[i])) || (
    n.kind@ == "visibility_modifier"@ && is_prefix_of("pub"@, n.text@))
}

/// Whether a child marks a Rust item public (see `marks_rust_public`).
fn child_marks_rust_public(c: &SyntaxNode) -> (res: bool)
    ensures
        res == marks_rust_public(*c),
{
    let t = chars_of(c.text.as_str());
    (string_eq_str(&c.kind, "visibility_modifier") && starts_with(t.as_slice(), "pub")) || (
    string_eq_str(&c.kind, "pub") && string_eq_str(&c.text, "pub"))
}

/// Whether a Rust node is public (see `rust_node_is_public`).
pub fn is_rust_node_public_impl(node: &SyntaxNode) -> (res: bool)
    ensures
        res == rust_node_is_public(*node),
{
    let mut i: usize = 0;
    while i < node.children.len()
        invariant
            i <= node.children@.len(),
            forall|j: int| 0 <= j < i ==> !marks_rust_public(#[trigger] node.children@[j]),
        decreases node.children.len() - i,
    {
        if child_marks_rust_public(&node.children[i]) {
            return true;
        }
        i = i + 1;
    }
    let t = chars_of(node.text.as_str());
    string_eq_str(&node.kind, "visibility_modifier") && starts_with(t.as_slice(), "pub")
}

// ---------------------------------------------------------------------------
// Declarations of a Rust file
// ---------------------------------------------------------------------------

/// The name reported for an `impl` block: `impl <trait> for <type>` (`_`
/// where the type is missing), `impl <type>`, or `UnknownImpl`.
pub open spec fn impl_name(n: SyntaxNode) -> Seq<char> {
    match field_text(n, "trait"@) {
        Some(t) => "impl "@ + t + " for "@ + match field_text(n, "type"@) {
            Some(ty) => ty,
            None => "_"@,
        },
        None => match field_text(n, "type"@) {
            Some(ty) => "impl "@ + ty,
            None => "UnknownImpl"@,
        },
    }
}

/// Whether a capture's name is one whose node type is the name itself and
/// whose name is the node's `name` field.
pub open spec fn is_named_item_capture(cn: Seq<char>) -> bool {
    cn == "function"@ || cn == "struct"@ || cn == "enum"@ || cn == "trait"@ || cn == "module"@ || cn
        == "const"@ || cn == "static"@ || cn == "type_alias"@
}

/// The node type and name a Rust capture declares, if any: the named items
/// by their `name` field (none without one), macros likewise as `macro`,
/// `impl` blocks by `impl_name`, and `use` declarations by their text.
pub open spec fn rust_declaration(c: SyntaxCapture) -> Option<(Seq<char>, Seq<char>)> {
    let cn = c.name@;
    if is_named_item_capture(cn) {
        match field_text(c.node, "name"@) {
            Some(t) => Some((cn, t)),
            None => None,
        }
    } else if cn == "macro_definition"@ {
        match field_text(c.node, "name"@) {
            Some(t) => Some(("macro"@, t)),
            None => None,
        }
    } else if cn == "impl_item"@ {
        Some(("impl"@, impl_name(c.node)))
    } else if cn == "use"@ {
        Some(("use_declaration"@, c.node.text@))
    } else {
        None
    }
}

/// The nodes the captures declare, in order.
pub open spec fn rust_capture_nodes(cs: Seq<SyntaxCapture>) -> Seq<AffectedNodeModel>
    decreases cs.len(),
{
    if cs.len() == 0 {
        seq![]
    } else {
        rust_capture_nodes(cs.drop_last()) + match rust_declaration(cs.last()) {
            Some(d) => seq![declared_node("rust"@, d.0, d.1, cs.last().node)],
            None => seq![],
        }
    }
}

/// The nodes the matches declare, match after match.
pub open spec fn rust_match_nodes(ms: Seq<SyntaxMatch>) -> Seq<AffectedNodeModel>
    decreases ms.len(),
{
    if ms.len() == 0 {
        seq![]
    } else {
        rust_match_nodes(ms.drop_last()) + rust_capture_nodes(ms.last().captures@)
    }
}

/// The name of an `impl` block (see `impl_name`).
fn impl_block_name(node: &SyntaxNode) -> (res: String)
    ensures
        res@ == impl_name(*node),
{
    let ty = child_text_in_field(node, "type");
    match child_text_in_field(node, "trait") {
        Some(t) => {
            let mut v: Vec<char> = Vec::new();
            extend_str(&mut v, "impl ");
            extend_string(&mut v, &t);
            extend_str(&mut v, " for ");
            match ty {
                Some(ty) => extend_string(&mut v, &ty),
                None => extend_str(&mut v, "_"),
            }
            to_string(&v)
        },
        None => match ty {
            Some(ty) => {
                let mut v: Vec<char> = Vec::new();
                extend_str(&mut v, "impl ");
                extend_string(&mut v, &ty);
                to_string(&v)
            },
            None => String::from_str("UnknownImpl"),
        },
    }
}

/// The node type and name a Rust capture declares (see `rust_declaration`).
fn rust_capture_declaration(c: &SyntaxCapture) -> (res: Option<(String, String)>)
    ensures
        match res {
            Some(d) => rust_declaration(*c) == Some((d.0@, d.1@)),
            None => rust_declaration(*c) is None,
        },
{
    let cn = &c.name;
    if string_eq_str(cn, "function") || string_eq_str(cn, "struct") || string_eq_str(cn, "enum")
        || string_eq_str(cn, "trait") || string_eq_str(cn, "module") || string_eq_str(cn, "const")
        || string_eq_str(cn, "static") || string_eq_str(cn, "type_alias") {
        match child_text_in_field(&c.node, "name") {
            Some(t) => Some((cn.clone(), t)),
            None => None,
        }
    } else if string_eq_str(cn, "macro_definition") {
        match child_text_in_field(&c.node, "name") {
            Some(t) => Some((String::from_str("macro"), t)),
            None => None,
        }
    } else if string_eq_str(cn, "impl_item") {
        Some((String::from_str("impl"), impl_block_name(&c.node)))
    } else if string_eq_str(cn, "use") {
        Some((String::from_str("use_declaration"), c.node.text.clone()))
    } else {
        None
    }
}

/// The declarations of a Rust file (see `rust_match_nodes`), from the matches
/// of the Rust declaration query over it.
pub fn analyze_rust_file_structure_impl(matches: &Vec<SyntaxMatch>) -> (res: Vec<AffectedNode>)
    ensures
        node_views(res@) == rust_match_nodes(matches@),
{
    let mut out: Vec<AffectedNode> = Vec::new();
    let mut i: usize = 0;
    while i < matches.len()
        invariant
            i <= matches@.len(),
            node_views(out@) == rust_match_nodes(matches@.take(i as int)),
        decreases matches.len() - i,
    {
        let cs = &matches[i].captures;
        let ghost before = node_views(out@);
        let mut j: usize = 0;
        while j < cs.len()
            invariant
                j <= cs@.len(),
                node_views(out@) == before + rust_capture_nodes(cs@.take(j as int)),
            decreases cs.len() - j,
        {
            assert(cs@.take(j + 1).drop_last() =~= cs@.take(j as int));
            match rust_capture_declaration(&cs[j]) {
                Some(d) => {
                    let node = declared_affected_node("rust", d.0, d.1, &cs[j].node);
                    let ghost prev = node_views(out@);
                    let ghost nv = node@;
                    out.push(node);
                    assert(node_views(out@) =~= prev.push(nv));
                },
                None => {},
            }
            assert(node_views(out@) =~= before + rust_capture_nodes(cs@.take(j + 1)));
            j = j + 1;
        }
        assert(cs@.take(j as int) =~= cs@);
        assert(matches@.take(i + 1).drop_last() =~= matches@.take(i as int));
        i = i + 1;
    }
    assert(matches@.take(i as int) =~= matches@);
    out
}

} // verus!
