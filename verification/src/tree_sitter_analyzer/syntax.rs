//! Syntax-tree nodes as plain values, and the searches over their children
//! that the language-specific analyses make.
//!
//! Each node a query captures is a `SyntaxNode`: its kind, the field under
//! which its parent holds it, its text and rows, its parent's kind and its
//! children, as far down as the analyses read (see `syntax_trees`, which
//! builds them from the grammars).

use vstd::prelude::*;
use crate::text::{chars_of, contains_seq, contains_str, string_eq_str, trim_chars, trim_seq, to_string};
use crate::tree_sitter_analyzer::model::{AffectedNode, AffectedNodeModel};

verus! {

/// A node of a syntax tree.
#[derive(Debug)]
pub struct SyntaxNode {
    /// The node's kind, such as `function_item`.
    pub kind: String,
    /// The field under which the parent holds the node, if any.
    pub field: Option<String>,
    /// The node's source text.
    pub text: String,
    pub start_row: usize,
    pub end_row: usize,
    /// The parent's kind, if the node has a parent.
    pub parent_kind: Option<String>,
    /// The node's children, in order.
    pub children: Vec<SyntaxNode>,
}

/// A node captured by a query, under the capture's name.
#[derive(Debug)]
pub struct SyntaxCapture {
    pub name: String,
    pub node: SyntaxNode,
}

/// One match of a query: its captures in order.
#[derive(Debug)]
pub struct SyntaxMatch {
    pub captures: Vec<SyntaxCapture>,
}

/// Whether the node is held under the field `f`.
pub open spec fn in_field(n: SyntaxNode, f: Seq<char>) -> bool {
    match n.field {
        Some(s) => s@ == f,
        None => false,
    }
}

/// The position of the first node of kind `k` in `cs`, from `i` on.
pub open spec fn kind_index_from(cs: Seq<SyntaxNode>, k: Seq<char>, i: int) -> Option<int>
    decreases cs.len() - i,
{
    if i < 0 || i >= cs.len() {
        None
    } else if cs[i].kind@ == k {
        Some(i)
    } else {
        kind_index_from(cs, k, i + 1)
    }
}

/// The position of the first node held under field `f` in `cs`, from `i` on.
pub open spec fn field_index_from(cs: Seq<SyntaxNode>, f: Seq<char>, i: int) -> Option<int>
    decreases cs.len() - i,
{
    if i < 0 || i >= cs.len() {
        None
    } else if in_field(cs[i], f) {
        Some(i)
    } else {
        field_index_from(cs, f, i + 1)
    }
}

/// The first child of `n` of kind `k`.
pub open spec fn child_of_kind(n: SyntaxNode, k: Seq<char>) -> Option<SyntaxNode> {
    match kind_index_from(n.children@, k, 0) {
        Some(i) => Some(n.children@[i]),
        None => None,
    }
}

/// The first child of `n` held under field `f` (tree-sitter's
/// `child_by_field_name`).
pub open spec fn child_in_field(n: SyntaxNode, f: Seq<char>) -> Option<SyntaxNode> {
    match field_index_from(n.children@, f, 0) {
        Some(i) => Some(n.children@[i]),
        None => None,
    }
}

/// The text of the first child of `n` held under field `f`.
pub open spec fn field_text(n: SyntaxNode, f: Seq<char>) -> Option<Seq<char>> {
    match child_in_field(n, f) {
        Some(c) => Some(c.text@),
        None => None,
    }
}

/// The value of an option, or `d` where there is none.
pub open spec fn or_default(o: Option<Seq<char>>, d: Seq<char>) -> Seq<char> {
    match o {
        Some(s) => s,
        None => d,
    }
}

/// The position of the first child of `node` of the given kind.
pub fn child_index_of_kind(node: &SyntaxNode, kind: &str) -> (res: Option<usize>)
    ensures
        match res {
            Some(i) => i < node.children@.len() && kind_index_from(node.children@, kind@, 0) == Some(
                i as int,
            ),
            None => kind_index_from(node.children@, kind@, 0) is None,
        },
{
    let ghost cs = node.children@;
    let mut i: usize = 0;
    while i < node.children.len()
        invariant
            cs == node.children@,
            i <= cs.len(),
            kind_index_from(cs, kind@, 0) == kind_index_from(cs, kind@, i as int),
        decreases node.children.len() - i,
    {
        if string_eq_str(&node.children[i].kind, kind) {
            return Some(i);
        }
        i = i + 1;
    }
    None
}

/// The position of the first child of `node` held under the given field.
pub fn child_index_in_field(node: &SyntaxNode, field: &str) -> (res: Option<usize>)
    ensures
        match res {
            Some(i) => i < node.children@.len() && field_index_from(node.children@, field@, 0) == Some(
                i as int,
            ),
            None => field_index_from(node.children@, field@, 0) is None,
        },
{
    let ghost cs = node.children@;
    let mut i: usize = 0;
    while i < node.children.len()
        invariant
            cs == node.children@,
            i <= cs.len(),
            field_index_from(cs, field@, 0) == field_index_from(cs, field@, i as int),
        decreases node.children.len() - i,
    {
        let held = match &node.children[i].field {
            Some(f) => string_eq_str(f, field),
            None => false,
        };
        if held {
            return Some(i);
        }
        i = i + 1;
    }
    None
}

/// The text of the first child of `node` held under the given field.
pub fn child_text_in_field(node: &SyntaxNode, field: &str) -> (res: Option<String>)
    ensures
        match res {
            Some(s) => field_text(*node, field@) == Some(s@),
            None => field_text(*node, field@) is None,
        },
{
    match child_index_in_field(node, field) {
        Some(i) => Some(node.children[i].text.clone()),
        None => None,
    }
}

/// Whether the given text contains the pattern.
pub fn text_contains(text: &String, pattern: &str) -> (res: bool)
    ensures
        res == contains_seq(text@, pattern@),
{
    let t = chars_of(text.as_str());
    contains_str(t.as_slice(), pattern)
}

/// The text without leading and trailing white space.
pub fn trimmed(text: &String) -> (res: String)
    ensures
        res@ == trim_seq(text@),
{
    let t = chars_of(text.as_str());
    to_string(&trim_chars(t.as_slice()))
}

/// Whether the node counts as public by the analyzer's rule for its
/// language. Rust: the node is itself a `visibility_modifier` (its
/// S-expression begins `(visibility_modifier`) whose text contains `pub`, or
/// its first `visibility_modifier` child contains `pub`. Java: its first
/// `modifiers` child contains `public`. Other languages: never.
pub open spec fn analyzer_node_is_public(language: Seq<char>, n: SyntaxNode) -> bool {
    if language == "rust"@ {
        (n.kind@ == "visibility_modifier"@ && contains_seq(n.text@, "pub"@)) || match child_of_kind(
            n,
            "visibility_modifier"@,
        ) {
            Some(c) => contains_seq(c.text@, "pub"@),
            None => false,
        }
    } else if language == "java"@ {
        match child_of_kind(n, "modifiers"@) {
            Some(c) => contains_seq(c.text@, "public"@),
            None => false,
        }
    } else {
        false
    }
}

/// Whether the node counts as public (see `analyzer_node_is_public`).
pub fn is_syntax_node_public(language: &str, node: &SyntaxNode) -> (res: bool)
    ensures
        res == analyzer_node_is_public(language@, *node),
{
    if crate::text::strs_eq(language, "rust") {
        if string_eq_str(&node.kind, "visibility_modifier") && text_contains(&node.text, "pub") {
            return true;
        }
        match child_index_of_kind(node, "visibility_modifier") {
            Some(i) => text_contains(&node.children[i].text, "pub"),
            None => false,
        }
    } else if crate::text::strs_eq(language, "java") {
        match child_index_of_kind(node, "modifiers") {
            Some(i) => text_contains(&node.children[i].text, "public"),
            None => false,
        }
    } else {
        false
    }
}

/// The affected node for a declaration: its rows, its text as content, and
/// whether it is public by the analyzer's rule for the language.
pub open spec fn declared_node(language: Seq<char>, kind: Seq<char>, name: Seq<char>, n: SyntaxNode) -> AffectedNodeModel {
    AffectedNodeModel {
        node_type: kind,
        name,
        range: (n.start_row, n.end_row),
        is_public: analyzer_node_is_public(language, n),
        content: Some(n.text@),
        line_range: (n.start_row, n.end_row),
        change_type: None,
        additions: None,
        deletions: None,
    }
}

/// The affected node for a declaration (see `declared_node`).
pub fn declared_affected_node(language: &str, kind: String, name: String, node: &SyntaxNode) -> (res: AffectedNode)
    ensures
        res@ == declared_node(language@, kind@, name@, *node),
{
    AffectedNode {
        node_type: kind,
        name,
        range: (node.start_row, node.end_row),
        is_public: is_syntax_node_public(language, node),
        content: Some(node.text.clone()),
        line_range: (node.start_row, node.end_row),
        change_type: None,
        additions: None,
        deletions: None,
    }
}

} // verus!
