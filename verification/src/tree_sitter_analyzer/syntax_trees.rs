//! Syntax trees from the Rust and Java grammars: each node a query
//! captures, with its children (and, for Java, their children), as
//! `SyntaxNode` values; and the structure analyses of a Rust or Java file
//! from its text.
//!
//! Tree-sitter is reached through calls that each parse the text, run the
//! query and keep a few facts of the captured nodes: the kind and parent kind
//! of each captured node; the kind, text and rows of each child, and the
//! field name under which the node holds it; and, for Java, the same of each
//! grandchild. The captures' names, rows and texts come from
//! `rust_capture_spans` and `java_capture_spans`. All the calls parse the same
//! text with the same query, so their results line up capture by capture; the
//! trees are assembled here.

use vstd::prelude::*;
use tree_sitter::{Parser, Query, QueryCursor};
use crate::errors::TreeSitterError;
use crate::text::copy_string;
use crate::tree_sitter_analyzer::grammars::{
    java_capture_spans, java_capture_spans_of, rust_capture_spans, rust_capture_spans_of, span_view, span_views,
    SpanModel,
};
use crate::tree_sitter_analyzer::java::{get_java_query_pattern_str, java_query_pattern};
use crate::tree_sitter_analyzer::java_project::JavaFileMatches;
use crate::tree_sitter_analyzer::java_syntax::{
    analyze_java_file_structure_impl, java_match_nodes, JAVA_CLASS_NAME_QUERY, JAVA_EXTENDS_QUERY,
    JAVA_IMPLEMENTS_QUERY, JAVA_IMPORT_QUERY, JAVA_METHOD_QUERY, JAVA_PACKAGE_NAME_QUERY,
};
use crate::tree_sitter_analyzer::model::{node_views, AffectedNode};
use crate::tree_sitter_analyzer::rust::{analyze_rust_file_structure_impl, get_rust_query_pattern_str, rust_match_nodes, rust_query_pattern};
use crate::tree_sitter_analyzer::syntax::{SyntaxCapture, SyntaxMatch, SyntaxNode};

verus! {

/// The kind of a captured node and its parent's kind.
pub type HeadModel = (Seq<char>, Option<Seq<char>>);

/// The kind, text and first and last rows of a node.
pub type FactsModel = (Seq<char>, Seq<char>, usize, usize);

/// The view of an optional string.
pub open spec fn str_opt(o: Option<String>) -> Option<Seq<char>> {
    match o {
        Some(s) => Some(s@),
        None => None,
    }
}

/// The views of the heads, match by match.
pub open spec fn heads_view(v: Seq<Vec<(String, Option<String>)>>) -> Seq<Seq<HeadModel>> {
    v.map_values(|m: Vec<(String, Option<String>)>| m@.map_values(|h: (String, Option<String>)| (h.0@, str_opt(h.1))))
}

/// The facts of a node.
pub open spec fn facts_view(k: (String, String, usize, usize)) -> FactsModel {
    (k.0@, k.1@, k.2, k.3)
}

/// The facts of a list of nodes.
pub open spec fn facts_seq_view(v: Seq<(String, String, usize, usize)>) -> Seq<FactsModel> {
    v.map_values(|k: (String, String, usize, usize)| facts_view(k))
}

/// The facts of the children, capture by capture.
pub open spec fn kids_view(v: Seq<Vec<(String, String, usize, usize)>>) -> Seq<Seq<FactsModel>> {
    v.map_values(|c: Vec<(String, String, usize, usize)>| facts_seq_view(c@))
}

/// A list of optional strings.
pub open spec fn opts_view(v: Seq<Option<String>>) -> Seq<Option<Seq<char>>> {
    v.map_values(|f: Option<String>| str_opt(f))
}

/// Field names, capture by capture.
pub open spec fn fields_view(v: Seq<Vec<Option<String>>>) -> Seq<Seq<Option<Seq<char>>>> {
    v.map_values(|c: Vec<Option<String>>| opts_view(c@))
}

/// Kinds and texts of a list of nodes.
pub open spec fn pairs_view(v: Seq<(String, String)>) -> Seq<(Seq<char>, Seq<char>)> {
    v.map_values(|k: (String, String)| (k.0@, k.1@))
}

/// Kinds and texts, child by child.
pub open spec fn pairs2_view(v: Seq<Vec<(String, String)>>) -> Seq<Seq<(Seq<char>, Seq<char>)>> {
    v.map_values(|k: Vec<(String, String)>| pairs_view(k@))
}

/// The kinds and texts of the grandchildren, capture by capture and child
/// by child.
pub open spec fn pairs3_view(v: Seq<Vec<Vec<(String, String)>>>) -> Seq<Seq<Seq<(Seq<char>, Seq<char>)>>> {
    v.map_values(|c: Vec<Vec<(String, String)>>| pairs2_view(c@))
}

/// Rows, child by child.
pub open spec fn rows2_view(v: Seq<Vec<(usize, usize)>>) -> Seq<Seq<(usize, usize)>> {
    v.map_values(|k: Vec<(usize, usize)>| k@)
}

/// The rows of the grandchildren, capture by capture and child by child.
pub open spec fn rows3_view(v: Seq<Vec<Vec<(usize, usize)>>>) -> Seq<Seq<Seq<(usize, usize)>>> {
    v.map_values(|c: Vec<Vec<(usize, usize)>>| rows2_view(c@))
}

/// The grandchildren's field names, capture by capture and child by child.
pub open spec fn grand_fields_view(v: Seq<Vec<Vec<Option<String>>>>) -> Seq<Seq<Seq<Option<Seq<char>>>>> {
    v.map_values(|c: Vec<Vec<Option<String>>>| fields_view(c@))
}

/// What `rust_syntax_heads` gives.
pub uninterp spec fn rust_syntax_heads_of(source: Seq<char>, query: Seq<char>) -> Option<Seq<Seq<HeadModel>>>;

/// What `rust_syntax_kids` gives.
pub uninterp spec fn rust_syntax_kids_of(source: Seq<char>, query: Seq<char>) -> Option<Seq<Seq<FactsModel>>>;

/// What `rust_kid_fields` gives.
pub uninterp spec fn rust_kid_fields_of(source: Seq<char>, query: Seq<char>) -> Option<Seq<Seq<Option<Seq<char>>>>>;

/// What `java_syntax_heads` gives.
pub uninterp spec fn java_syntax_heads_of(source: Seq<char>, query: Seq<char>) -> Option<Seq<Seq<HeadModel>>>;

/// What `java_syntax_kids` gives.
pub uninterp spec fn java_syntax_kids_of(source: Seq<char>, query: Seq<char>) -> Option<Seq<Seq<FactsModel>>>;

/// What `java_kid_fields` gives.
pub uninterp spec fn java_kid_fields_of(source: Seq<char>, query: Seq<char>) -> Option<Seq<Seq<Option<Seq<char>>>>>;

/// What `java_grandkids` gives.
pub uninterp spec fn java_grandkids_of(source: Seq<char>, query: Seq<char>) -> Option<Seq<Seq<Seq<(Seq<char>, Seq<char>)>>>>;

/// What `java_grandkid_rows` gives.
pub uninterp spec fn java_grandkid_rows_of(source: Seq<char>, query: Seq<char>) -> Option<Seq<Seq<Seq<(usize, usize)>>>>;

/// What `java_grandkid_fields` gives.
pub uninterp spec fn java_grandkid_fields_of(source: Seq<char>, query: Seq<char>) -> Option<Seq<Seq<Seq<Option<Seq<char>>>>>>;

/// tree-sitter: `Parser` with `tree_sitter_rust::language()`, `Query::new` and
/// `QueryCursor::matches`, keeping, match by match, the kind of each
/// captured node (`Node::kind`) and its parent's kind (`Node::parent`). The
/// contract names the result (`rust_syntax_heads_of`).
#[verifier::external_body]
fn rust_syntax_heads(source: &str, query: &str) -> (res: Option<Vec<Vec<(String, Option<String>)>>>)
    ensures
        match res {
            Some(v) => rust_syntax_heads_of(source@, query@) == Some(heads_view(v@)),
            None => rust_syntax_heads_of(source@, query@) is None,
        },
{
    let mut p = Parser::new();
    p.set_language(tree_sitter_rust::language()).ok()?;
    let tree = p.parse(source, None)?;
    let q = Query::new(tree_sitter_rust::language(), query).ok()?;
    Some(QueryCursor::new().matches(&q, tree.root_node(), source.as_bytes()).map(|m| m.captures.iter().map(|c| (c.node
        .kind().into(), c.node.parent().map(|n| n.kind().into()))).collect()).collect())
}

/// The same calls as `rust_syntax_heads`, keeping, capture by capture over
/// all the matches, the kind, text (`Node::utf8_text`) and first and last
/// rows of each child (`Node::children`). The contract names the result
/// (`rust_syntax_kids_of`).
#[verifier::external_body]
fn rust_syntax_kids(source: &str, query: &str) -> (res: Option<Vec<Vec<(String, String, usize, usize)>>>)
    ensures
        match res {
            Some(v) => rust_syntax_kids_of(source@, query@) == Some(kids_view(v@)),
            None => rust_syntax_kids_of(source@, query@) is None,
        },
{
    let mut p = Parser::new();
    p.set_language(tree_sitter_rust::language()).ok()?;
    let tree = p.parse(source, None)?;
    let q = Query::new(tree_sitter_rust::language(), query).ok()?;
    let b = source.as_bytes();
    Some(QueryCursor::new().matches(&q, tree.root_node(), b).flat_map(|m| m.captures.iter().map(|c| c.node.children(
        &mut c.node.walk()).map(|k| (k.kind().into(), k.utf8_text(b).unwrap_or_default().into(), k.start_position().row,
        k.end_position().row)).collect())).collect())
}

/// The same calls as `rust_syntax_heads`, keeping, capture by capture over
/// all the matches, the field name under which the node holds each child:
/// a `TreeCursor` (`Node::walk`) steps through the children
/// (`goto_first_child`, `goto_next_sibling`) as `Node::children` does and
/// reads `TreeCursor::field_name` at each. The contract names the result
/// (`rust_kid_fields_of`).
#[verifier::external_body]
fn rust_kid_fields(source: &str, query: &str) -> (res: Option<Vec<Vec<Option<String>>>>)
    ensures
        match res {
            Some(v) => rust_kid_fields_of(source@, query@) == Some(fields_view(v@)),
            None => rust_kid_fields_of(source@, query@) is None,
        },
{
    let mut p = Parser::new();
    p.set_language(tree_sitter_rust::language()).ok()?;
    let tree = p.parse(source, None)?;
    let q = Query::new(tree_sitter_rust::language(), query).ok()?;
    Some(QueryCursor::new().matches(&q, tree.root_node(), source.as_bytes()).flat_map(|m| m.captures.iter().map(|c| {
        let mut w = c.node.walk();
        w.goto_first_child();
        (0..c.node.child_count()).map(|_| { let f = w.field_name().map(String::from); w.goto_next_sibling(); f }).collect()
    })).collect())
}

/// tree-sitter: `Parser` with `tree_sitter_java::language()`, `Query::new` and
/// `QueryCursor::matches`, keeping, match by match, the kind of each
/// captured node (`Node::kind`) and its parent's kind (`Node::parent`). The
/// contract names the result (`java_syntax_heads_of`).
#[verifier::external_body]
fn java_syntax_heads(source: &str, query: &str) -> (res: Option<Vec<Vec<(String, Option<String>)>>>)
    ensures
        match res {
            Some(v) => java_syntax_heads_of(source@, query@) == Some(heads_view(v@)),
            None => java_syntax_heads_of(source@, query@) is None,
        },
{
    let mut p = Parser::new();
    p.set_language(tree_sitter_java::language()).ok()?;
    let tree = p.parse(source, None)?;
    let q = Query::new(tree_sitter_java::language(), query).ok()?;
    Some(QueryCursor::new().matches(&q, tree.root_node(), source.as_bytes()).map(|m| m.captures.iter().map(|c| (c.node
        .kind().into(), c.node.parent().map(|n| n.kind().into()))).collect()).collect())
}

/// The same calls as `java_syntax_heads`, keeping, capture by capture over
/// all the matches, the kind, text (`Node::utf8_text`) and first and last
/// rows of each child (`Node::children`). The contract names the result
/// (`java_syntax_kids_of`).
#[verifier::external_body]
fn java_syntax_kids(source: &str, query: &str) -> (res: Option<Vec<Vec<(String, String, usize, usize)>>>)
    ensures
        match res {
            Some(v) => java_syntax_kids_of(source@, query@) == Some(kids_view(v@)),
            None => java_syntax_kids_of(source@, query@) is None,
        },
{
    let mut p = Parser::new();
    p.set_language(tree_sitter_java::language()).ok()?;
    let tree = p.parse(source, None)?;
    let q = Query::new(tree_sitter_java::language(), query).ok()?;
    let b = source.as_bytes();
    Some(QueryCursor::new().matches(&q, tree.root_node(), b).flat_map(|m| m.captures.iter().map(|c| c.node.children(
        &mut c.node.walk()).map(|k| (k.kind().into(), k.utf8_text(b).unwrap_or_default().into(), k.start_position().row,
        k.end_position().row)).collect())).collect())
}

/// The same calls as `java_syntax_heads`, keeping, capture by capture over
/// all the matches, the field name under which the node holds each child:
/// a `TreeCursor` (`Node::walk`) steps through the children
/// (`goto_first_child`, `goto_next_sibling`) as `Node::children` does and
/// reads `TreeCursor::field_name` at each. The contract names the result
/// (`java_kid_fields_of`).
#[verifier::external_body]
fn java_kid_fields(source: &str, query: &str) -> (res: Option<Vec<Vec<Option<String>>>>)
    ensures
        match res {
            Some(v) => java_kid_fields_of(source@, query@) == Some(fields_view(v@)),
            None => java_kid_fields_of(source@, query@) is None,
        },
{
    let mut p = Parser::new();
    p.set_language(tree_sitter_java::language()).ok()?;
    let tree = p.parse(source, None)?;
    let q = Query::new(tree_sitter_java::language(), query).ok()?;
    Some(QueryCursor::new().matches(&q, tree.root_node(), source.as_bytes()).flat_map(|m| m.captures.iter().map(|c| {
        let mut w = c.node.walk();
        w.goto_first_child();
        (0..c.node.child_count()).map(|_| { let f = w.field_name().map(String::from); w.goto_next_sibling(); f }).collect()
    })).collect())
}

/// The same calls as `java_syntax_heads`, keeping, capture by capture over
/// all the matches and child by child, the kind and text of each
/// grandchild (`Node::children`). The contract names the result
/// (`java_grandkids_of`).
#[verifier::external_body]
fn java_grandkids(source: &str, query: &str) -> (res: Option<Vec<Vec<Vec<(String, String)>>>>)
    ensures
        match res {
            Some(v) => java_grandkids_of(source@, query@) == Some(pairs3_view(v@)),
            None => java_grandkids_of(source@, query@) is None,
        },
{
    let mut p = Parser::new();
    p.set_language(tree_sitter_java::language()).ok()?;
    let tree = p.parse(source, None)?;
    let q = Query::new(tree_sitter_java::language(), query).ok()?;
    let b = source.as_bytes();
    Some(QueryCursor::new().matches(&q, tree.root_node(), b).flat_map(|m| m.captures).map(|c| c.node.children(&mut c
        .node.walk()).map(|k| k.children(&mut k.walk()).map(|g| (g.kind().into(), g.utf8_text(b).unwrap_or_default()
        .into())).collect()).collect()).collect())
}

/// The same calls as `java_syntax_heads`, keeping, capture by capture over
/// all the matches and child by child, the first and last rows of each
/// grandchild (`Node::children`). The contract names the result
/// (`java_grandkid_rows_of`).
#[verifier::external_body]
fn java_grandkid_rows(source: &str, query: &str) -> (res: Option<Vec<Vec<Vec<(usize, usize)>>>>)
    ensures
        match res {
            Some(v) => java_grandkid_rows_of(source@, query@) == Some(rows3_view(v@)),
            None => java_grandkid_rows_of(source@, query@) is None,
        },
{
    let mut p = Parser::new();
    p.set_language(tree_sitter_java::language()).ok()?;
    let tree = p.parse(source, None)?;
    let q = Query::new(tree_sitter_java::language(), query).ok()?;
    Some(QueryCursor::new().matches(&q, tree.root_node(), source.as_bytes()).flat_map(|m| m.captures).map(|c| c.node
        .children(&mut c.node.walk()).map(|k| k.children(&mut k.walk()).map(|g| (g.start_position().row, g
        .end_position().row)).collect()).collect()).collect())
}

/// The same calls as `java_syntax_heads`, keeping, capture by capture over
/// all the matches and child by child, the field name under which the child
/// holds each grandchild, read with a `TreeCursor` as in `java_kid_fields`.
/// The contract names the result (`java_grandkid_fields_of`).
#[verifier::external_body]
fn java_grandkid_fields(source: &str, query: &str) -> (res: Option<Vec<Vec<Vec<Option<String>>>>>)
    ensures
        match res {
            Some(v) => java_grandkid_fields_of(source@, query@) == Some(grand_fields_view(v@)),
            None => java_grandkid_fields_of(source@, query@) is None,
        },
{
    let mut p = Parser::new();
    p.set_language(tree_sitter_java::language()).ok()?;
    let tree = p.parse(source, None)?;
    let q = Query::new(tree_sitter_java::language(), query).ok()?;
    Some(QueryCursor::new().matches(&q, tree.root_node(), source.as_bytes()).flat_map(|m| m.captures).map(|c| c.node
        .children(&mut c.node.walk()).map(|k| {
        let mut w = k.walk();
        w.goto_first_child();
        (0..k.child_count()).map(|_| { let f = w.field_name().map(String::from); w.goto_next_sibling(); f }).collect()
    }).collect()).collect())
}

/// The grandchildren under a capture's children: their kinds and texts,
/// rows and field names, child by child.
pub type CaptureGrand = (Seq<Seq<(Seq<char>, Seq<char>)>>, Seq<Seq<(usize, usize)>>, Seq<Seq<Option<Seq<char>>>>);

/// A node with the given kind, field name, text, rows and parent kind.
pub open spec fn node_is(
    n: SyntaxNode,
    kind: Seq<char>,
    field: Option<Seq<char>>,
    text: Seq<char>,
    rows: (usize, usize),
    parent: Option<Seq<char>>,
) -> bool {
    &&& n.kind@ == kind
    &&& str_opt(n.field) == field
    &&& n.text@ == text
    &&& n.start_row == rows.0
    &&& n.end_row == rows.1
    &&& str_opt(n.parent_kind) == parent
}

/// The lengths of a capture's data line up: a field name and a list of
/// grandchildren per child, and for each child as many rows and field names
/// as grandchildren.
pub open spec fn capture_shape_ok(ks: Seq<FactsModel>, fs: Seq<Option<Seq<char>>>, g: CaptureGrand) -> bool {
    &&& fs.len() == ks.len()
    &&& g.0.len() == ks.len()
    &&& g.1.len() == ks.len()
    &&& g.2.len() == ks.len()
    &&& forall|u: int| 0 <= u < ks.len() ==> (#[trigger] g.0[u]).len() == g.1[u].len() && g.0[u].len() == g.2[u].len()
}

/// The child `u` of a capture, built from its data, with its own children
/// and no deeper ones.
pub open spec fn kid_fits(
    n: SyntaxNode,
    ks: Seq<FactsModel>,
    fs: Seq<Option<Seq<char>>>,
    g: CaptureGrand,
    u: int,
    parent: Seq<char>,
) -> bool {
    &&& node_is(n, ks[u].0, fs[u], ks[u].1, (ks[u].2, ks[u].3), Some(parent))
    &&& n.children@.len() == g.0[u].len()
    &&& forall|w: int|
        0 <= w < g.0[u].len() ==> node_is(
            #[trigger] n.children@[w],
            g.0[u][w].0,
            g.2[u][w],
            g.0[u][w].1,
            g.1[u][w],
            Some(ks[u].0),
        ) && n.children@[w].children@.len() == 0
}

/// A capture built from its span, head, children and grandchildren.
pub open spec fn capture_fits(
    c: SyntaxCapture,
    s: SpanModel,
    h: HeadModel,
    ks: Seq<FactsModel>,
    fs: Seq<Option<Seq<char>>>,
    g: CaptureGrand,
) -> bool {
    &&& c.name@ == s.0
    &&& node_is(c.node, h.0, None, s.5, (s.3, s.4), h.1)
    &&& c.node.children@.len() == ks.len()
    &&& forall|u: int| 0 <= u < ks.len() ==> kid_fits(#[trigger] c.node.children@[u], ks, fs, g, u, h.0)
}

/// How many captures the matches before match `i` hold.
pub open spec fn offset<A>(s: Seq<Seq<A>>, i: int) -> int
    decreases i,
{
    if i <= 0 {
        0
    } else {
        offset(s, i - 1) + s[i - 1].len()
    }
}

/// The grandchildren of all captures, capture by capture.
pub type GrandData = (
    Seq<Seq<Seq<(Seq<char>, Seq<char>)>>>,
    Seq<Seq<Seq<(usize, usize)>>>,
    Seq<Seq<Seq<Option<Seq<char>>>>>,
);

/// All the data of the syntax trees of a query's matches: the captures'
/// spans and heads match by match; their children, the children's field
/// names and the grandchildren capture by capture over all the matches.
pub type TreeData = (Seq<Seq<SpanModel>>, Seq<Seq<HeadModel>>, Seq<Seq<FactsModel>>, Seq<Seq<Option<Seq<char>>>>, GrandData);

/// The grandchildren of capture `t`.
pub open spec fn grand_at(d: TreeData, t: int) -> CaptureGrand {
    (d.4.0[t], d.4.1[t], d.4.2[t])
}

/// The data of the syntax trees line up: a head for each span, children
/// for each capture, and each capture's data lines up.
pub open spec fn shapes_agree(d: TreeData) -> bool {
    &&& d.1.len() == d.0.len()
    &&& forall|i: int| 0 <= i < d.0.len() ==> (#[trigger] d.1[i]).len() == d.0[i].len()
    &&& d.2.len() == offset(d.0, d.0.len() as int)
    &&& d.3.len() == d.2.len()
    &&& d.4.0.len() == d.2.len()
    &&& d.4.1.len() == d.2.len()
    &&& d.4.2.len() == d.2.len()
    &&& forall|t: int| 0 <= t < d.2.len() ==> #[trigger] capture_shape_ok(d.2[t], d.3[t], grand_at(d, t))
}

/// The matches are the syntax trees the data describe.
pub open spec fn syntax_fits(ms: Seq<SyntaxMatch>, d: TreeData) -> bool {
    &&& ms.len() == d.0.len()
    &&& forall|i: int| 0 <= i < ms.len() ==> (#[trigger] ms[i]).captures@.len() == d.0[i].len()
    &&& forall|i: int, j: int|
        0 <= i < ms.len() && 0 <= j < d.0[i].len() ==> capture_fits(
            #[trigger] ms[i].captures@[j],
            d.0[i][j],
            d.1[i][j],
            d.2[offset(d.0, i) + j],
            d.3[offset(d.0, i) + j],
            grand_at(d, offset(d.0, i) + j),
        )
}

/// No grandchildren: each child of each capture has none.
pub open spec fn no_grand(ks: Seq<Seq<FactsModel>>) -> GrandData {
    (
        Seq::new(ks.len(), |t: int| Seq::new(ks[t].len(), |u: int| Seq::<(Seq<char>, Seq<char>)>::empty())),
        Seq::new(ks.len(), |t: int| Seq::new(ks[t].len(), |u: int| Seq::<(usize, usize)>::empty())),
        Seq::new(ks.len(), |t: int| Seq::new(ks[t].len(), |u: int| Seq::<Option<Seq<char>>>::empty())),
    )
}

/// The tree data the Rust grammar gives for a query over a text: children
/// only, no grandchildren. None where a call gives none.
pub open spec fn rust_tree_data(source: Seq<char>, query: Seq<char>) -> Option<TreeData> {
    match (
        rust_capture_spans_of(source, query),
        rust_syntax_heads_of(source, query),
        rust_syntax_kids_of(source, query),
        rust_kid_fields_of(source, query),
    ) {
        (Some(a), Some(b), Some(c), Some(f)) => Some((a, b, c, f, no_grand(c))),
        _ => None,
    }
}

/// The tree data the Java grammar gives for a query over a text, two
/// levels below each captured node. None where a call gives none.
pub open spec fn java_tree_data(source: Seq<char>, query: Seq<char>) -> Option<TreeData> {
    match (
        java_capture_spans_of(source, query),
        java_syntax_heads_of(source, query),
        java_syntax_kids_of(source, query),
        java_kid_fields_of(source, query),
        java_grandkids_of(source, query),
        java_grandkid_rows_of(source, query),
        java_grandkid_fields_of(source, query),
    ) {
        (Some(a), Some(b), Some(c), Some(f), Some(k), Some(r), Some(x)) => Some((a, b, c, f, (k, r, x))),
        _ => None,
    }
}

/// Whether the data exist and line up.
pub open spec fn trees_available(d: Option<TreeData>) -> bool {
    d matches Some(x) && shapes_agree(x)
}

/// Whether the matches are the syntax trees of the data.
pub open spec fn trees_fit(ms: Seq<SyntaxMatch>, d: Option<TreeData>) -> bool {
    d matches Some(x) && shapes_agree(x) && syntax_fits(ms, x)
}

/// The grandchildren of a capture as given, or none for each child.
pub open spec fn cap_grand_view(
    g: Option<(&Vec<Vec<(String, String)>>, &Vec<Vec<(usize, usize)>>, &Vec<Vec<Option<String>>>)>,
    n: nat,
) -> CaptureGrand {
    match g {
        Some(x) => (pairs2_view(x.0@), rows2_view(x.1@), fields_view(x.2@)),
        None => (
            Seq::new(n, |u: int| Seq::<(Seq<char>, Seq<char>)>::empty()),
            Seq::new(n, |u: int| Seq::<(usize, usize)>::empty()),
            Seq::new(n, |u: int| Seq::<Option<Seq<char>>>::empty()),
        ),
    }
}

/// The grandchildren of all captures as given, or none.
pub open spec fn grand_view(
    g: Option<(&Vec<Vec<Vec<(String, String)>>>, &Vec<Vec<Vec<(usize, usize)>>>, &Vec<Vec<Vec<Option<String>>>>)>,
    ks: Seq<Seq<FactsModel>>,
) -> GrandData {
    match g {
        Some(x) => (pairs3_view(x.0@), rows3_view(x.1@), grand_fields_view(x.2@)),
        None => no_grand(ks),
    }
}

/// A copy of an optional string.
fn copy_opt(o: &Option<String>) -> (res: Option<String>)
    ensures
        str_opt(res) == str_opt(*o),
{
    match o {
        Some(s) => Some(copy_string(s)),
        None => None,
    }
}

/// The grandchildren under one child, built from their data.
fn build_leaves(
    kt: &Vec<(String, String)>,
    rows: &Vec<(usize, usize)>,
    fields: &Vec<Option<String>>,
    parent: &String,
) -> (res: Vec<SyntaxNode>)
    requires
        rows@.len() == kt@.len(),
        fields@.len() == kt@.len(),
    ensures
        res@.len() == kt@.len(),
        forall|w: int|
            0 <= w < kt@.len() ==> node_is(
                #[trigger] res@[w],
                kt@[w].0@,
                str_opt(fields@[w]),
                kt@[w].1@,
                rows@[w],
                Some(parent@),
            ) && res@[w].children@.len() == 0,
{
    let mut out: Vec<SyntaxNode> = Vec::new();
    let mut w: usize = 0;
    while w < kt.len()
        invariant
            w <= kt@.len(),
            rows@.len() == kt@.len(),
            fields@.len() == kt@.len(),
            out@.len() == w,
            forall|v: int|
                0 <= v < w ==> node_is(
                    #[trigger] out@[v],
                    kt@[v].0@,
                    str_opt(fields@[v]),
                    kt@[v].1@,
                    rows@[v],
                    Some(parent@),
                ) && out@[v].children@.len() == 0,
        decreases kt.len() - w,
    {
        let n = SyntaxNode {
            kind: copy_string(&kt[w].0),
            field: copy_opt(&fields[w]),
            text: copy_string(&kt[w].1),
            start_row: rows[w].0,
            end_row: rows[w].1,
            parent_kind: Some(copy_string(parent)),
            children: Vec::new(),
        };
        out.push(n);
        w = w + 1;
    }
    out
}

/// A capture built from its span, head, children and, where given, its
/// children's children; none where their lengths do not line up.
fn build_capture(
    s: &(String, usize, usize, usize, usize, String, String),
    h: &(String, Option<String>),
    ks: &Vec<(String, String, usize, usize)>,
    fs: &Vec<Option<String>>,
    g: Option<(&Vec<Vec<(String, String)>>, &Vec<Vec<(usize, usize)>>, &Vec<Vec<Option<String>>>)>,
) -> (res: Option<SyntaxCapture>)
    ensures
        match res {
            Some(c) => capture_shape_ok(facts_seq_view(ks@), opts_view(fs@), cap_grand_view(g, ks@.len()))
                && capture_fits(
                c,
                span_view(*s),
                (h.0@, str_opt(h.1)),
                facts_seq_view(ks@),
                opts_view(fs@),
                cap_grand_view(g, ks@.len()),
            ),
            None => !capture_shape_ok(facts_seq_view(ks@), opts_view(fs@), cap_grand_view(g, ks@.len())),
        },
{
    let ghost kv = facts_seq_view(ks@);
    let ghost fv = opts_view(fs@);
    let ghost cg = cap_grand_view(g, ks@.len());
    let n = ks.len();
    if fs.len() != n {
        return None;
    }
    match g {
        Some((gk, gr, gf)) => {
            if gk.len() != n || gr.len() != n || gf.len() != n {
                return None;
            }
        },
        None => {},
    }
    let mut kids: Vec<SyntaxNode> = Vec::new();
    let mut u: usize = 0;
    while u < n
        invariant
            n == ks@.len(),
            kv == facts_seq_view(ks@),
            fv == opts_view(fs@),
            cg == cap_grand_view(g, ks@.len()),
            fs@.len() == n,
            cg.0.len() == n && cg.1.len() == n && cg.2.len() == n,
            u <= n,
            kids@.len() == u,
            forall|v: int| 0 <= v < u ==> (#[trigger] cg.0[v]).len() == cg.1[v].len() && cg.0[v].len() == cg.2[v].len(),
            forall|v: int| 0 <= v < u ==> kid_fits(#[trigger] kids@[v], kv, fv, cg, v, h.0@),
        decreases n - u,
    {
        let leaves = match g {
            Some((gk, gr, gf)) => {
                assert(cg.0[u as int] == pairs_view(gk@[u as int]@));
                assert(cg.1[u as int] == gr@[u as int]@);
                assert(cg.2[u as int] == opts_view(gf@[u as int]@));
                if gr[u].len() != gk[u].len() || gf[u].len() != gk[u].len() {
                    return None;
                }
                build_leaves(&gk[u], &gr[u], &gf[u], &ks[u].0)
            },
            None => Vec::new(),
        };
        let k = &ks[u];
        let kid = SyntaxNode {
            kind: copy_string(&k.0),
            field: copy_opt(&fs[u]),
            text: copy_string(&k.1),
            start_row: k.2,
            end_row: k.3,
            parent_kind: Some(copy_string(&h.0)),
            children: leaves,
        };
        assert(kv[u as int] == (k.0@, k.1@, k.2, k.3));
        assert(fv[u as int] == str_opt(fs@[u as int]));
        assert(kid_fits(kid, kv, fv, cg, u as int, h.0@)) by {
            match g {
                Some((gk, gr, gf)) => {
                    assert forall|w: int| 0 <= w < cg.0[u as int].len() implies node_is(
                        #[trigger] kid.children@[w],
                        cg.0[u as int][w].0,
                        cg.2[u as int][w],
                        cg.0[u as int][w].1,
                        cg.1[u as int][w],
                        Some(kv[u as int].0),
                    ) && kid.children@[w].children@.len() == 0 by {
                        assert(cg.0[u as int][w] == (gk@[u as int]@[w].0@, gk@[u as int]@[w].1@));
                        assert(cg.2[u as int][w] == str_opt(gf@[u as int]@[w]));
                    }
                },
                None => {},
            }
        }
        kids.push(kid);
        u = u + 1;
    }
    let node = SyntaxNode {
        kind: copy_string(&h.0),
        field: None,
        text: copy_string(&s.5),
        start_row: s.3,
        end_row: s.4,
        parent_kind: copy_opt(&h.1),
        children: kids,
    };
    Some(SyntaxCapture { name: copy_string(&s.0), node })
}

/// The offset of a match moves on by the match's captures, and never back.
proof fn lemma_offset_grows<A>(s: Seq<Seq<A>>, a: int, b: int)
    requires
        0 <= a <= b <= s.len(),
    ensures
        offset(s, a) <= offset(s, b),
    decreases b - a,
{
    if a < b {
        lemma_offset_grows(s, a, b - 1);
    }
}

/// The tree data of the given calls' results.
pub open spec fn data_of(
    spans: Seq<Vec<(String, usize, usize, usize, usize, String, String)>>,
    heads: Seq<Vec<(String, Option<String>)>>,
    kids: Seq<Vec<(String, String, usize, usize)>>,
    fields: Seq<Vec<Option<String>>>,
    g: Option<(&Vec<Vec<Vec<(String, String)>>>, &Vec<Vec<Vec<(usize, usize)>>>, &Vec<Vec<Vec<Option<String>>>>)>,
) -> TreeData {
    (span_views(spans), heads_view(heads), kids_view(kids), fields_view(fields), grand_view(g, kids_view(kids)))
}

/// The syntax trees of a query's matches, assembled from the calls'
/// results; none where they do not line up.
fn assemble_trees(
    spans: &Vec<Vec<(String, usize, usize, usize, usize, String, String)>>,
    heads: &Vec<Vec<(String, Option<String>)>>,
    kids: &Vec<Vec<(String, String, usize, usize)>>,
    fields: &Vec<Vec<Option<String>>>,
    g: Option<(&Vec<Vec<Vec<(String, String)>>>, &Vec<Vec<Vec<(usize, usize)>>>, &Vec<Vec<Vec<Option<String>>>>)>,
) -> (res: Option<Vec<SyntaxMatch>>)
    ensures
        match res {
            Some(ms) => shapes_agree(data_of(spans@, heads@, kids@, fields@, g)) && syntax_fits(
                ms@,
                data_of(spans@, heads@, kids@, fields@, g),
            ),
            None => !shapes_agree(data_of(spans@, heads@, kids@, fields@, g)),
        },
{
    let ghost d = data_of(spans@, heads@, kids@, fields@, g);
    if heads.len() != spans.len() || fields.len() != kids.len() {
        return None;
    }
    match g {
        Some((a, b, c)) => {
            if a.len() != kids.len() || b.len() != kids.len() || c.len() != kids.len() {
                return None;
            }
        },
        None => {},
    }
    assert(d.4.0.len() == kids@.len() && d.4.1.len() == kids@.len() && d.4.2.len() == kids@.len());
    let mut out: Vec<SyntaxMatch> = Vec::new();
    let mut t: usize = 0;
    let mut i: usize = 0;
    while i < spans.len()
        invariant
            d == data_of(spans@, heads@, kids@, fields@, g),
            heads@.len() == spans@.len(),
            fields@.len() == kids@.len(),
            d.0.len() == spans@.len(),
            d.2.len() == kids@.len(),
            d.4.0.len() == kids@.len() && d.4.1.len() == kids@.len() && d.4.2.len() == kids@.len(),
            match g {
                Some(x) => x.0@.len() == kids@.len() && x.1@.len() == kids@.len() && x.2@.len() == kids@.len(),
                None => true,
            },
            i <= spans@.len(),
            t == offset(d.0, i as int),
            t <= kids@.len(),
            out@.len() == i,
            forall|k: int| 0 <= k < i ==> (#[trigger] d.1[k]).len() == d.0[k].len(),
            forall|k: int| 0 <= k < t ==> #[trigger] capture_shape_ok(d.2[k], d.3[k], grand_at(d, k)),
            forall|k: int| 0 <= k < i ==> (#[trigger] out@[k]).captures@.len() == d.0[k].len(),
            forall|k: int, j: int|
                0 <= k < i && 0 <= j < d.0[k].len() ==> capture_fits(
                    #[trigger] out@[k].captures@[j],
                    d.0[k][j],
                    d.1[k][j],
                    d.2[offset(d.0, k) + j],
                    d.3[offset(d.0, k) + j],
                    grand_at(d, offset(d.0, k) + j),
                ),
        decreases spans.len() - i,
    {
        let sp = &spans[i];
        let hd = &heads[i];
        assert(d.0[i as int] == sp@.map_values(|x: (String, usize, usize, usize, usize, String, String)| span_view(x)));
        assert(d.1[i as int] == hd@.map_values(|h: (String, Option<String>)| (h.0@, str_opt(h.1))));
        if hd.len() != sp.len() {
            return None;
        }
        let mut caps: Vec<SyntaxCapture> = Vec::new();
        let mut j: usize = 0;
        while j < sp.len()
            invariant
                d == data_of(spans@, heads@, kids@, fields@, g),
                i < spans@.len(),
                sp == spans@[i as int],
                hd == heads@[i as int],
                hd@.len() == sp@.len(),
                fields@.len() == kids@.len(),
                d.0.len() == spans@.len(),
                d.2.len() == kids@.len(),
                d.0[i as int].len() == sp@.len(),
                d.0[i as int] == sp@.map_values(|x: (String, usize, usize, usize, usize, String, String)| span_view(x)),
                d.1[i as int] == hd@.map_values(|h: (String, Option<String>)| (h.0@, str_opt(h.1))),
                d.4.0.len() == kids@.len() && d.4.1.len() == kids@.len() && d.4.2.len() == kids@.len(),
                match g {
                    Some(x) => x.0@.len() == kids@.len() && x.1@.len() == kids@.len() && x.2@.len() == kids@.len(),
                    None => true,
                },
                j <= sp@.len(),
                t == offset(d.0, i as int) + j,
                t <= kids@.len(),
                caps@.len() == j,
                forall|k: int| 0 <= k < t ==> #[trigger] capture_shape_ok(d.2[k], d.3[k], grand_at(d, k)),
                forall|v: int|
                    0 <= v < j ==> capture_fits(
                        #[trigger] caps@[v],
                        d.0[i as int][v],
                        d.1[i as int][v],
                        d.2[offset(d.0, i as int) + v],
                        d.3[offset(d.0, i as int) + v],
                        grand_at(d, offset(d.0, i as int) + v),
                    ),
            decreases sp.len() - j,
        {
            if t >= kids.len() {
                proof {
                    lemma_offset_grows(d.0, i as int + 1, d.0.len() as int);
                }
                return None;
            }
            let gt = match g {
                Some((a, b, c)) => Some((&a[t], &b[t], &c[t])),
                None => None,
            };
            let ghost cg = cap_grand_view(gt, kids@[t as int]@.len());
            assert(d.2[t as int] == facts_seq_view(kids@[t as int]@));
            assert(d.3[t as int] == opts_view(fields@[t as int]@));
            assert(grand_at(d, t as int) =~= cg) by {
                match g {
                    Some((a, b, c)) => {},
                    None => {
                        assert(d.4.0[t as int] =~= cg.0);
                        assert(d.4.1[t as int] =~= cg.1);
                        assert(d.4.2[t as int] =~= cg.2);
                    },
                }
            }
            let c = match build_capture(&sp[j], &hd[j], &kids[t], &fields[t], gt) {
                Some(c) => c,
                None => {
                    assert(!capture_shape_ok(d.2[t as int], d.3[t as int], grand_at(d, t as int)));
                    return None;
                },
            };
            assert(d.0[i as int][j as int] == span_view(sp@[j as int]));
            assert(d.1[i as int][j as int] == (hd@[j as int].0@, str_opt(hd@[j as int].1)));
            caps.push(c);
            t = t + 1;
            j = j + 1;
        }
        let ghost before = out@;
        out.push(SyntaxMatch { captures: caps });
        assert(offset(d.0, i as int + 1) == offset(d.0, i as int) + d.0[i as int].len());
        assert forall|k: int, v: int|
            0 <= k < i + 1 && 0 <= v < d.0[k].len() implies capture_fits(
                #[trigger] out@[k].captures@[v],
                d.0[k][v],
                d.1[k][v],
                d.2[offset(d.0, k) + v],
                d.3[offset(d.0, k) + v],
                grand_at(d, offset(d.0, k) + v),
            ) by {
            if k < i {
                assert(out@[k] == before[k]);
            }
        }
        i = i + 1;
    }
    if t != kids.len() {
        return None;
    }
    proof {
        assert forall|k: int| 0 <= k < d.2.len() implies #[trigger] capture_shape_ok(
            d.2[k],
            d.3[k],
            grand_at(d, k),
        ) by {}
    }
    Some(out)
}

/// The syntax trees of the matches of a query over a Rust text (see
/// `rust_tree_data`): each captured node with its children; none where a
/// call gives nothing or the results do not line up.
pub fn rust_syntax_matches(source: &str, query: &str) -> (res: Option<Vec<SyntaxMatch>>)
    ensures
        res is Some <==> trees_available(rust_tree_data(source@, query@)),
        res matches Some(ms) ==> trees_fit(ms@, rust_tree_data(source@, query@)),
{
    let a = rust_capture_spans(source, query);
    let b = rust_syntax_heads(source, query);
    let c = rust_syntax_kids(source, query);
    let f = rust_kid_fields(source, query);
    match (a, b, c, f) {
        (Some(a), Some(b), Some(c), Some(f)) => {
            assert(grand_view(None, kids_view(c@)) == no_grand(kids_view(c@)));
            assemble_trees(&a, &b, &c, &f, None)
        },
        _ => None,
    }
}

/// The syntax trees of the matches of a query over a Java text (see
/// `java_tree_data`): each captured node with its children and theirs; none
/// where a call gives nothing or the results do not line up.
pub fn java_syntax_matches(source: &str, query: &str) -> (res: Option<Vec<SyntaxMatch>>)
    ensures
        res is Some <==> trees_available(java_tree_data(source@, query@)),
        res matches Some(ms) ==> trees_fit(ms@, java_tree_data(source@, query@)),
{
    let a = java_capture_spans(source, query);
    let b = java_syntax_heads(source, query);
    let c = java_syntax_kids(source, query);
    let f = java_kid_fields(source, query);
    let gk = java_grandkids(source, query);
    let gr = java_grandkid_rows(source, query);
    let gf = java_grandkid_fields(source, query);
    match (a, b, c, f, gk, gr, gf) {
        (Some(a), Some(b), Some(c), Some(f), Some(gk), Some(gr), Some(gf)) => assemble_trees(
            &a,
            &b,
            &c,
            &f,
            Some((&gk, &gr, &gf)),
        ),
        _ => None,
    }
}

/// The declarations of a Rust file from its text: the analysis of the
/// syntax trees of the Rust query's matches (`rust_match_nodes`), or a
/// query error where the trees cannot be had.
pub fn rust_file_structure(source: &str) -> (res: Result<Vec<AffectedNode>, TreeSitterError>)
    ensures
        trees_available(rust_tree_data(source@, rust_query_pattern())) ==> (res matches Ok(ns) && exists|ms: Seq<
            SyntaxMatch,
        >| trees_fit(ms, rust_tree_data(source@, rust_query_pattern())) && node_views(ns@) == rust_match_nodes(ms)),
        !trees_available(rust_tree_data(source@, rust_query_pattern())) ==> (res matches Err(
            TreeSitterError::QueryError(m),
        ) && m@ == "Failed to create Rust query"@),
{
    match rust_syntax_matches(source, get_rust_query_pattern_str()) {
        Some(ms) => Ok(analyze_rust_file_structure_impl(&ms)),
        None => Err(TreeSitterError::QueryError(String::from_str("Failed to create Rust query"))),
    }
}

/// The declarations of a Java file from its text: the analysis of the
/// syntax trees of the Java query's matches (`java_match_nodes`), or a
/// query error where the trees cannot be had.
pub fn java_file_structure(source: &str) -> (res: Result<Vec<AffectedNode>, TreeSitterError>)
    ensures
        trees_available(java_tree_data(source@, java_query_pattern())) ==> (res matches Ok(ns) && exists|ms: Seq<
            SyntaxMatch,
        >| trees_fit(ms, java_tree_data(source@, java_query_pattern())) && node_views(ns@) == java_match_nodes(ms)),
        !trees_available(java_tree_data(source@, java_query_pattern())) ==> (res matches Err(
            TreeSitterError::QueryError(m),
        ) && m@ == "Failed to create Java query"@),
{
    match java_syntax_matches(source, get_java_query_pattern_str()) {
        Some(ms) => Ok(analyze_java_file_structure_impl(&ms)),
        None => Err(TreeSitterError::QueryError(String::from_str("Failed to create Java query"))),
    }
}

/// Whether optional matches are the syntax trees of a Java query over a
/// text: present exactly where the trees can be had.
pub open spec fn java_matches_are(o: Option<Vec<SyntaxMatch>>, source: Seq<char>, query: Seq<char>) -> bool {
    &&& (o is Some <==> trees_available(java_tree_data(source, query)))
    &&& (o matches Some(ms) ==> trees_fit(ms@, java_tree_data(source, query)))
}

/// The matches of the Java project queries over a file's text: package,
/// class name, imports, superclass, interfaces and methods.
pub fn java_source_matches(source: &str) -> (res: JavaFileMatches)
    ensures
        java_matches_are(res.package, source@, JAVA_PACKAGE_NAME_QUERY@),
        java_matches_are(res.class_name, source@, JAVA_CLASS_NAME_QUERY@),
        java_matches_are(res.imports, source@, JAVA_IMPORT_QUERY@),
        java_matches_are(res.extends, source@, JAVA_EXTENDS_QUERY@),
        java_matches_are(res.implements, source@, JAVA_IMPLEMENTS_QUERY@),
        java_matches_are(res.methods, source@, JAVA_METHOD_QUERY@),
{
    JavaFileMatches {
        package: java_syntax_matches(source, JAVA_PACKAGE_NAME_QUERY),
        class_name: java_syntax_matches(source, JAVA_CLASS_NAME_QUERY),
        imports: java_syntax_matches(source, JAVA_IMPORT_QUERY),
        extends: java_syntax_matches(source, JAVA_EXTENDS_QUERY),
        implements: java_syntax_matches(source, JAVA_IMPLEMENTS_QUERY),
        methods: java_syntax_matches(source, JAVA_METHOD_QUERY),
    }
}

} // verus!
