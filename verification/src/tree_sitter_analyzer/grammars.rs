//! Parsing a source text with a language's grammar and running a query
//! over it, and the analyses of a file from its text: of its changes, and of
//! the declarations it holds.
//!
//! Tree-sitter is reached through two calls per grammar (Rust, Java, Python
//! and Go): one gives, for each capture of each match, its name, byte range,
//! rows, text and S-expression; the other gives the kind and text of its
//! children. Both parse the same text and run the same query, so their
//! results line up capture by capture; the captures are then assembled here.

use vstd::prelude::*;
use tree_sitter::{Parser, Query, QueryCursor};
use crate::tree_sitter_analyzer::structure::{
    analyze_file_structure, child_marks_public, file_structure, first_marking, is_valid_capture, marks_public,
    names_declaration, scan_ends, scanned, scans_end,
};
use crate::errors::TreeSitterError;
use crate::text::{byte_len, chars_byte_len, chars_of, copy_string, split_char, string_eq_str, strs_eq};
use crate::tree_sitter_analyzer::file_changes::{
    analyze_file_changes, capture_views, file_change_nodes, hunk_first_line, hunks_in_range, match_views,
    no_query_message, CaptureNode, CaptureNodeModel, QueryMatch,
};
use crate::tree_sitter_analyzer::model::{hunk_views, node_views, AffectedNode, DiffHunk};
use crate::tree_sitter_analyzer::setup::{
    analyzer_java_query, analyzer_rust_query, get_java_query_pattern, get_rust_query_pattern,
};

verus! {

/// What a capture holds: its name, byte range, first and last rows, text
/// and S-expression.
pub type SpanModel = (Seq<char>, usize, usize, usize, usize, Seq<char>, Seq<char>);

/// The kind and text of each child of a capture.
pub type ChildrenModel = Seq<(Seq<char>, Seq<char>)>;

/// The kinds and texts of a list of children.
pub open spec fn pair_views(v: Seq<(String, String)>) -> Seq<(Seq<char>, Seq<char>)> {
    v.map_values(|c: (String, String)| (c.0@, c.1@))
}

/// The view of one capture's span.
pub open spec fn span_view(t: (String, usize, usize, usize, usize, String, String)) -> SpanModel {
    (t.0@, t.1, t.2, t.3, t.4, t.5@, t.6@)
}

/// The spans of the captures of each match.
pub open spec fn span_views(v: Seq<Vec<(String, usize, usize, usize, usize, String, String)>>) -> Seq<Seq<SpanModel>> {
    v.map_values(
        |m: Vec<(String, usize, usize, usize, usize, String, String)>|
            m@.map_values(|t: (String, usize, usize, usize, usize, String, String)| span_view(t)),
    )
}

/// The children of the captures of each match.
pub open spec fn children_views(v: Seq<Vec<Vec<(String, String)>>>) -> Seq<Seq<ChildrenModel>> {
    v.map_values(|m: Vec<Vec<(String, String)>>| m@.map_values(|c: Vec<(String, String)>| pair_views(c@)))
}

/// The result of parsing `source` with the Rust grammar and running `query`
/// over it: for each match, each capture's name, byte range, rows, text and
/// S-expression; none where the text cannot be parsed or the query cannot
/// be made. A function of the two texts alone.
pub uninterp spec fn rust_capture_spans_of(source: Seq<char>, query: Seq<char>) -> Option<Seq<Seq<SpanModel>>>;

/// The same parse and query as `rust_capture_spans_of`: for each match, the
/// kind and text of each child of each capture.
pub uninterp spec fn rust_capture_children_of(source: Seq<char>, query: Seq<char>) -> Option<Seq<Seq<ChildrenModel>>>;

/// As `rust_capture_spans_of`, with the Java grammar.
pub uninterp spec fn java_capture_spans_of(source: Seq<char>, query: Seq<char>) -> Option<Seq<Seq<SpanModel>>>;

/// As `rust_capture_children_of`, with the Java grammar.
pub uninterp spec fn java_capture_children_of(source: Seq<char>, query: Seq<char>) -> Option<Seq<Seq<ChildrenModel>>>;

/// As `rust_capture_spans_of`, with the Python grammar.
pub uninterp spec fn python_capture_spans_of(source: Seq<char>, query: Seq<char>) -> Option<Seq<Seq<SpanModel>>>;

/// As `rust_capture_children_of`, with the Python grammar.
pub uninterp spec fn python_capture_children_of(source: Seq<char>, query: Seq<char>) -> Option<Seq<Seq<ChildrenModel>>>;

/// As `rust_capture_spans_of`, with the Go grammar.
pub uninterp spec fn go_capture_spans_of(source: Seq<char>, query: Seq<char>) -> Option<Seq<Seq<SpanModel>>>;

/// As `rust_capture_children_of`, with the Go grammar.
pub uninterp spec fn go_capture_children_of(source: Seq<char>, query: Seq<char>) -> Option<Seq<Seq<ChildrenModel>>>;

/// The spans of the matches of a query over a text.
pub open spec fn opt_span_views(o: Option<Vec<Vec<(String, usize, usize, usize, usize, String, String)>>>) -> Option<
    Seq<Seq<SpanModel>>,
> {
    match o {
        Some(v) => Some(span_views(v@)),
        None => None,
    }
}

/// The children of the captures of the matches of a query over a text.
pub open spec fn opt_children_views(o: Option<Vec<Vec<Vec<(String, String)>>>>) -> Option<Seq<Seq<ChildrenModel>>> {
    match o {
        Some(v) => Some(children_views(v@)),
        None => None,
    }
}

/// tree-sitter: `Parser` with `tree_sitter_rust::language()`, `Query::new`
/// and `QueryCursor::matches`, keeping each capture's name
/// (`Query::capture_names`), byte range, rows, text (`Node::utf8_text`) and
/// S-expression (`Node::to_sexp`). The contract names the result
/// (`rust_capture_spans_of`); the grammar is not stated.
#[verifier::external_body]
pub(crate) fn rust_capture_spans(source: &str, query: &str) -> (res: Option<Vec<Vec<(String, usize, usize, usize, usize, String, String)>>>)
    ensures
        opt_span_views(res) == rust_capture_spans_of(source@, query@),
{
    let mut p = Parser::new();
    p.set_language(tree_sitter_rust::language()).ok()?;
    let tree = p.parse(source, None)?;
    let q = Query::new(tree_sitter_rust::language(), query).ok()?;
    let b = source.as_bytes();
    Some(QueryCursor::new().matches(&q, tree.root_node(), b).map(|m| m.captures.iter().map(|c| { let n = c.node; (
        q.capture_names()[c.index as usize].clone(), n.start_byte(), n.end_byte(), n.start_position().row,
        n.end_position().row, n.utf8_text(b).unwrap_or("").to_string(), n.to_sexp()) }).collect()).collect())
}

/// The same calls as `rust_capture_spans`, keeping the kind (`Node::kind`)
/// and text of each child (`Node::children`) of each capture. The contract
/// names the result (`rust_capture_children_of`).
#[verifier::external_body]
fn rust_capture_children(source: &str, query: &str) -> (res: Option<Vec<Vec<Vec<(String, String)>>>>)
    ensures
        opt_children_views(res) == rust_capture_children_of(source@, query@),
{
    let mut p = Parser::new();
    p.set_language(tree_sitter_rust::language()).ok()?;
    let tree = p.parse(source, None)?;
    let q = Query::new(tree_sitter_rust::language(), query).ok()?;
    let b = source.as_bytes();
    Some(QueryCursor::new().matches(&q, tree.root_node(), b).map(|m| m.captures.iter().map(|c| c.node.children(&mut c.node
        .walk()).map(|k| (k.kind().to_string(), k.utf8_text(b).unwrap_or("").to_string())).collect()).collect()).collect())
}

/// tree-sitter: as `rust_capture_spans`, with `tree_sitter_java::language()`.
/// The contract names the result (`java_capture_spans_of`).
#[verifier::external_body]
pub(crate) fn java_capture_spans(source: &str, query: &str) -> (res: Option<Vec<Vec<(String, usize, usize, usize, usize, String, String)>>>)
    ensures
        opt_span_views(res) == java_capture_spans_of(source@, query@),
{
    let mut p = Parser::new();
    p.set_language(tree_sitter_java::language()).ok()?;
    let tree = p.parse(source, None)?;
    let q = Query::new(tree_sitter_java::language(), query).ok()?;
    let b = source.as_bytes();
    Some(QueryCursor::new().matches(&q, tree.root_node(), b).map(|m| m.captures.iter().map(|c| { let n = c.node; (
        q.capture_names()[c.index as usize].clone(), n.start_byte(), n.end_byte(), n.start_position().row,
        n.end_position().row, n.utf8_text(b).unwrap_or("").to_string(), n.to_sexp()) }).collect()).collect())
}

/// tree-sitter: as `rust_capture_children`, with `tree_sitter_java::language()`.
/// The contract names the result (`java_capture_children_of`).
#[verifier::external_body]
fn java_capture_children(source: &str, query: &str) -> (res: Option<Vec<Vec<Vec<(String, String)>>>>)
    ensures
        opt_children_views(res) == java_capture_children_of(source@, query@),
{
    let mut p = Parser::new();
    p.set_language(tree_sitter_java::language()).ok()?;
    let tree = p.parse(source, None)?;
    let q = Query::new(tree_sitter_java::language(), query).ok()?;
    let b = source.as_bytes();
    Some(QueryCursor::new().matches(&q, tree.root_node(), b).map(|m| m.captures.iter().map(|c| c.node.children(&mut c.node
        .walk()).map(|k| (k.kind().to_string(), k.utf8_text(b).unwrap_or("").to_string())).collect()).collect()).collect())
}

/// tree-sitter: as `rust_capture_spans`, with `tree_sitter_python::language()`.
/// The contract names the result (`python_capture_spans_of`).
#[verifier::external_body]
fn python_capture_spans(source: &str, query: &str) -> (res: Option<Vec<Vec<(String, usize, usize, usize, usize, String, String)>>>)
    ensures
        opt_span_views(res) == python_capture_spans_of(source@, query@),
{
    let mut p = Parser::new();
    p.set_language(tree_sitter_python::language()).ok()?;
    let tree = p.parse(source, None)?;
    let q = Query::new(tree_sitter_python::language(), query).ok()?;
    let b = source.as_bytes();
    Some(QueryCursor::new().matches(&q, tree.root_node(), b).map(|m| m.captures.iter().map(|c| { let n = c.node; (
        q.capture_names()[c.index as usize].clone(), n.start_byte(), n.end_byte(), n.start_position().row,
        n.end_position().row, n.utf8_text(b).unwrap_or("").to_string(), n.to_sexp()) }).collect()).collect())
}

/// tree-sitter: as `rust_capture_children`, with `tree_sitter_python::language()`.
/// The contract names the result (`python_capture_children_of`).
#[verifier::external_body]
fn python_capture_children(source: &str, query: &str) -> (res: Option<Vec<Vec<Vec<(String, String)>>>>)
    ensures
        opt_children_views(res) == python_capture_children_of(source@, query@),
{
    let mut p = Parser::new();
    p.set_language(tree_sitter_python::language()).ok()?;
    let tree = p.parse(source, None)?;
    let q = Query::new(tree_sitter_python::language(), query).ok()?;
    let b = source.as_bytes();
    Some(QueryCursor::new().matches(&q, tree.root_node(), b).map(|m| m.captures.iter().map(|c| c.node.children(&mut c.node
        .walk()).map(|k| (k.kind().to_string(), k.utf8_text(b).unwrap_or("").to_string())).collect()).collect()).collect())
}

/// tree-sitter: as `rust_capture_spans`, with `tree_sitter_go::language()`.
/// The contract names the result (`go_capture_spans_of`).
#[verifier::external_body]
fn go_capture_spans(source: &str, query: &str) -> (res: Option<Vec<Vec<(String, usize, usize, usize, usize, String, String)>>>)
    ensures
        opt_span_views(res) == go_capture_spans_of(source@, query@),
{
    let mut p = Parser::new();
    p.set_language(tree_sitter_go::language()).ok()?;
    let tree = p.parse(source, None)?;
    let q = Query::new(tree_sitter_go::language(), query).ok()?;
    let b = source.as_bytes();
    Some(QueryCursor::new().matches(&q, tree.root_node(), b).map(|m| m.captures.iter().map(|c| { let n = c.node; (
        q.capture_names()[c.index as usize].clone(), n.start_byte(), n.end_byte(), n.start_position().row,
        n.end_position().row, n.utf8_text(b).unwrap_or("").to_string(), n.to_sexp()) }).collect()).collect())
}

/// tree-sitter: as `rust_capture_children`, with `tree_sitter_go::language()`.
/// The contract names the result (`go_capture_children_of`).
#[verifier::external_body]
fn go_capture_children(source: &str, query: &str) -> (res: Option<Vec<Vec<Vec<(String, String)>>>>)
    ensures
        opt_children_views(res) == go_capture_children_of(source@, query@),
{
    let mut p = Parser::new();
    p.set_language(tree_sitter_go::language()).ok()?;
    let tree = p.parse(source, None)?;
    let q = Query::new(tree_sitter_go::language(), query).ok()?;
    let b = source.as_bytes();
    Some(QueryCursor::new().matches(&q, tree.root_node(), b).map(|m| m.captures.iter().map(|c| c.node.children(&mut c.node
        .walk()).map(|k| (k.kind().to_string(), k.utf8_text(b).unwrap_or("").to_string())).collect()).collect()).collect())
}

/// The captured node with the given span and children.
pub open spec fn capture_model(s: SpanModel, d: ChildrenModel) -> CaptureNodeModel {
    CaptureNodeModel {
        capture_name: s.0,
        start_byte: s.1,
        end_byte: s.2,
        start_row: s.3,
        end_row: s.4,
        text: s.5,
        sexp: s.6,
        children: d,
    }
}

/// Whether spans and children have the same number of matches and, match
/// by match, the same number of captures.
pub open spec fn same_shape(a: Seq<Seq<SpanModel>>, b: Seq<Seq<ChildrenModel>>) -> bool {
    a.len() == b.len() && forall|i: int| 0 <= i < a.len() ==> (#[trigger] a[i]).len() == b[i].len()
}

/// The matches assembled from spans and children: none where either is
/// missing or where they do not line up.
pub open spec fn assembled_matches(a: Option<Seq<Seq<SpanModel>>>, b: Option<Seq<Seq<ChildrenModel>>>) -> Option<
    Seq<Seq<CaptureNodeModel>>,
> {
    match (a, b) {
        (Some(a), Some(b)) => if same_shape(a, b) {
            Some(Seq::new(a.len(), |i: int| Seq::new(a[i].len(), |j: int| capture_model(a[i][j], b[i][j]))))
        } else {
            None
        },
        _ => None,
    }
}

/// The views of optional matches.
pub open spec fn opt_match_views(o: Option<Vec<QueryMatch>>) -> Option<Seq<Seq<CaptureNodeModel>>> {
    match o {
        Some(v) => Some(match_views(v@)),
        None => None,
    }
}

/// Assembles the matches from spans and children (see `assembled_matches`).
fn assemble(
    spans: Option<Vec<Vec<(String, usize, usize, usize, usize, String, String)>>>,
    children: Option<Vec<Vec<Vec<(String, String)>>>>,
) -> (res: Option<Vec<QueryMatch>>)
    ensures
        opt_match_views(res) == assembled_matches(opt_span_views(spans), opt_children_views(children)),
{
    let ghost sp = opt_span_views(spans);
    let ghost dp = opt_children_views(children);
    let (a, b) = match (spans, children) {
        (Some(a), Some(b)) => (a, b),
        _ => return None,
    };
    let ghost av = span_views(a@);
    let ghost bv = children_views(b@);
    assert(sp == Some(av) && dp == Some(bv));
    assert(av.len() == a@.len() && bv.len() == b@.len());
    if a.len() != b.len() {
        return None;
    }
    let mut out: Vec<QueryMatch> = Vec::new();
    let mut i: usize = 0;
    while i < a.len()
        invariant
            i <= a@.len(),
            a@.len() == b@.len(),
            sp == Some(av) && dp == Some(bv),
            sp == opt_span_views(spans) && dp == opt_children_views(children),
            av == span_views(a@),
            bv == children_views(b@),
            forall|k: int| 0 <= k < i ==> (#[trigger] av[k]).len() == bv[k].len(),
            match_views(out@) == Seq::new(
                i as nat,
                |k: int| Seq::new(av[k].len(), |j: int| capture_model(av[k][j], bv[k][j])),
            ),
        decreases a.len() - i,
    {
        let sa = &a[i];
        let sb = &b[i];
        assert(av[i as int] == sa@.map_values(|t: (String, usize, usize, usize, usize, String, String)| span_view(t)));
        assert(bv[i as int] == sb@.map_values(|c: Vec<(String, String)>| pair_views(c@)));
        assert(av[i as int].len() == sa@.len());
        assert(bv[i as int].len() == sb@.len());
        if sa.len() != sb.len() {
            assert(!same_shape(av, bv));
            assert(assembled_matches(sp, dp) is None);
            return None;
        }
        let mut caps: Vec<CaptureNode> = Vec::new();
        let mut j: usize = 0;
        while j < sa.len()
            invariant
                i < a@.len(),
                a@.len() == b@.len(),
                av == span_views(a@),
                bv == children_views(b@),
                j <= sa@.len(),
                sa@.len() == sb@.len(),
                av[i as int].len() == sa@.len(),
                bv[i as int].len() == sb@.len(),
                forall|t: int| 0 <= t < sa@.len() ==> av[i as int][t] == span_view(#[trigger] sa@[t]),
                forall|t: int| 0 <= t < sb@.len() ==> bv[i as int][t] == pair_views((#[trigger] sb@[t])@),
                capture_views(caps@) == Seq::new(
                    j as nat,
                    |t: int| capture_model(av[i as int][t], bv[i as int][t]),
                ),
            decreases sa.len() - j,
        {
            let s = &sa[j];
            let c = CaptureNode {
                capture_name: copy_string(&s.0),
                start_byte: s.1,
                end_byte: s.2,
                start_row: s.3,
                end_row: s.4,
                text: copy_string(&s.5),
                sexp: copy_string(&s.6),
                children: copy_pairs(&sb[j]),
            };
            let ghost before = capture_views(caps@);
            let ghost cv = c@;
            caps.push(c);
            assert(capture_views(caps@) =~= before.push(cv));
            assert(av[i as int][j as int] == span_view(sa@[j as int]));
            assert(bv[i as int][j as int] == pair_views(sb@[j as int]@));
            assert(cv == capture_model(av[i as int][j as int], bv[i as int][j as int]));
            assert(capture_views(caps@) =~= Seq::new(
                (j + 1) as nat,
                |t: int| capture_model(av[i as int][t], bv[i as int][t]),
            ));
            j = j + 1;
        }
        let ghost before = match_views(out@);
        let m = QueryMatch { captures: caps };
        out.push(m);
        assert(match_views(out@) =~= Seq::new(
            (i + 1) as nat,
            |k: int| Seq::new(av[k].len(), |j: int| capture_model(av[k][j], bv[k][j])),
        )) by {
            assert(match_views(out@) =~= before.push(capture_views(caps@)));
            assert(capture_views(caps@) =~= Seq::new(
                av[i as int].len(),
                |j: int| capture_model(av[i as int][j], bv[i as int][j]),
            ));
        }
        i = i + 1;
    }
    assert(same_shape(av, bv));
    Some(out)
}

/// A copy of a list of (kind, text) pairs.
fn copy_pairs(v: &Vec<(String, String)>) -> (res: Vec<(String, String)>)
    ensures
        pair_views(res@) == pair_views(v@),
{
    let mut out: Vec<(String, String)> = Vec::new();
    let mut i: usize = 0;
    while i < v.len()
        invariant
            i <= v@.len(),
            out@.len() == i,
            forall|k: int| 0 <= k < i ==> (#[trigger] out@[k]).0@ == v@[k].0@ && out@[k].1@ == v@[k].1@,
        decreases v.len() - i,
    {
        let p = (copy_string(&v[i].0), copy_string(&v[i].1));
        out.push(p);
        i = i + 1;
    }
    assert(pair_views(out@) =~= pair_views(v@));
    out
}

/// The matches of a query over a Rust text (see `assembled_matches`).
pub open spec fn rust_query_matches_of(source: Seq<char>, query: Seq<char>) -> Option<Seq<Seq<CaptureNodeModel>>> {
    assembled_matches(rust_capture_spans_of(source, query), rust_capture_children_of(source, query))
}

/// The matches of a query over a Java text (see `assembled_matches`).
pub open spec fn java_query_matches_of(source: Seq<char>, query: Seq<char>) -> Option<Seq<Seq<CaptureNodeModel>>> {
    assembled_matches(java_capture_spans_of(source, query), java_capture_children_of(source, query))
}

/// Parses a text with the Rust grammar and runs a query over it (see
/// `rust_query_matches_of`); none where the text cannot be parsed or the
/// query cannot be made.
pub fn rust_query_matches(source: &str, query: &str) -> (res: Option<Vec<QueryMatch>>)
    ensures
        opt_match_views(res) == rust_query_matches_of(source@, query@),
{
    assemble(rust_capture_spans(source, query), rust_capture_children(source, query))
}

/// Parses a text with the Java grammar and runs a query over it (see
/// `java_query_matches_of`).
pub fn java_query_matches(source: &str, query: &str) -> (res: Option<Vec<QueryMatch>>)
    ensures
        opt_match_views(res) == java_query_matches_of(source@, query@),
{
    assemble(java_capture_spans(source, query), java_capture_children(source, query))
}

/// The matches of the analyzer's query for a language over a text: the Rust
/// and Java queries with their grammars; none for other languages, which
/// have no query.
pub open spec fn source_query_matches(language: Seq<char>, source: Seq<char>) -> Option<Seq<Seq<CaptureNodeModel>>> {
    if language == "rust"@ {
        rust_query_matches_of(source, analyzer_rust_query())
    } else if language == "java"@ {
        java_query_matches_of(source, analyzer_java_query())
    } else {
        None
    }
}

/// The matches of the analyzer's query for a language over a text (see
/// `source_query_matches`).
pub fn source_matches(language: &String, source: &String) -> (res: Option<Vec<QueryMatch>>)
    ensures
        opt_match_views(res) == source_query_matches(language@, source@),
{
    if string_eq_str(language, "rust") {
        let q = get_rust_query_pattern();
        rust_query_matches(source.as_str(), q.as_str())
    } else if string_eq_str(language, "java") {
        let q = get_java_query_pattern();
        java_query_matches(source.as_str(), q.as_str())
    } else {
        None
    }
}

/// Whether every hunk's last line number fits in a `usize` (see
/// `hunks_in_range`).
pub fn hunks_fit(hunks: &Vec<DiffHunk>) -> (res: bool)
    ensures
        res == hunks_in_range(hunk_views(hunks@)),
{
    let mut i: usize = 0;
    while i < hunks.len()
        invariant
            i <= hunks@.len(),
            forall|k: int|
                0 <= k < i ==> hunk_first_line((#[trigger] hunk_views(hunks@)[k]).new_range)
                    + hunk_views(hunks@)[k].new_range.count <= usize::MAX,
        decreases hunks.len() - i,
    {
        let r = hunks[i].new_range;
        assert(hunk_views(hunks@)[i as int].new_range == r);
        let first: usize = if r.start >= 1 {
            r.start - 1
        } else {
            0
        };
        if first > usize::MAX - r.count {
            assert(!(hunk_first_line(hunk_views(hunks@)[i as int].new_range)
                + hunk_views(hunks@)[i as int].new_range.count <= usize::MAX));
            return false;
        }
        i = i + 1;
    }
    true
}

/// The nodes a file's hunks affect, from the file's language and text: the
/// language's query is run over the text (see `source_query_matches`) and
/// the changes are mapped onto its matches (see `file_change_nodes`); a
/// query error where the language has no query or the text gives no
/// matches.
pub fn analyze_source_changes(language: &String, source: &String, hunks: &Vec<DiffHunk>) -> (res: Result<
    Vec<AffectedNode>,
    TreeSitterError,
>)
    requires
        hunks_in_range(hunk_views(hunks@)),
    ensures
        match source_query_matches(language@, source@) {
            None => res matches Err(TreeSitterError::QueryError(m)) && m@ == no_query_message(language@),
            Some(ms) => res matches Ok(ns) && node_views(ns@) == file_change_nodes(
                language@,
                vstd::utf8::encode_utf8(source@),
                ms,
                hunk_views(hunks@),
            ),
        },
{
    let matches = source_matches(language, source);
    analyze_file_changes(language, source, hunks, matches.as_ref())
}

/// The matches of a query over a Python text (see `assembled_matches`).
pub open spec fn python_query_matches_of(source: Seq<char>, query: Seq<char>) -> Option<Seq<Seq<CaptureNodeModel>>> {
    assembled_matches(python_capture_spans_of(source, query), python_capture_children_of(source, query))
}

/// Parses a text with the Python grammar and runs a query over it (see
/// `python_query_matches_of`).
pub fn python_query_matches(source: &str, query: &str) -> (res: Option<Vec<QueryMatch>>)
    ensures
        opt_match_views(res) == python_query_matches_of(source@, query@),
{
    assemble(python_capture_spans(source, query), python_capture_children(source, query))
}

/// The matches of a query over a Go text (see `assembled_matches`).
pub open spec fn go_query_matches_of(source: Seq<char>, query: Seq<char>) -> Option<Seq<Seq<CaptureNodeModel>>> {
    assembled_matches(go_capture_spans_of(source, query), go_capture_children_of(source, query))
}

/// Parses a text with the Go grammar and runs a query over it (see
/// `go_query_matches_of`).
pub fn go_query_matches(source: &str, query: &str) -> (res: Option<Vec<QueryMatch>>)
    ensures
        opt_match_views(res) == go_query_matches_of(source@, query@),
{
    assemble(go_capture_spans(source, query), go_capture_children(source, query))
}

/// The structure query for Rust declarations.
pub const RUST_STRUCTURE_QUERY: &'static str = "
        ; 函数定义
        (function_item) @function
        
        ; 结构体定义
        (struct_item) @struct
        
        ; 枚举定义
        (enum_item) @enum
        
        ; 特性定义
        (trait_item) @trait
        
        ; 实现块
        (impl_item) @impl
        
        ; 模块定义
        (mod_item) @module
        
        ; 常量定义
        (const_item) @const
        
        ; 静态变量定义
        (static_item) @static
        
        ; 类型别名
        (type_item) @type_alias
        
        ; 宏定义
        (macro_definition) @macro
        
        ; 使用声明
        (use_declaration) @use
        
        ; 属性标记
        (attribute) @attribute
        ";

/// The structure query for Java declarations.
pub const JAVA_STRUCTURE_QUERY: &'static str = "
        ; 类定义
        (class_declaration
          name: (identifier) @class.name
        ) @class.def
        
        ; 接口定义
        (interface_declaration
          name: (identifier) @interface.name
        ) @interface.def
        
        ; 方法定义
        (method_declaration
          name: (identifier) @method.name
        ) @method.def
        
        ; 字段定义
        (field_declaration
          declarator: (variable_declarator
            name: (identifier) @field.name
          )
        ) @field.def
        ";

/// The structure query for Python declarations.
pub const PYTHON_STRUCTURE_QUERY: &'static str = "
        ; 函数定义
        (function_definition
          name: (identifier) @function.name
        ) @function.def
        
        ; 类定义
        (class_definition
          name: (identifier) @class.name
        ) @class.def
        
        ; 方法定义（函数在类内部）
        (function_definition
          name: (identifier) @method.name
        ) @method.def
        ";

/// The structure query for Go declarations.
pub const GO_STRUCTURE_QUERY: &'static str = "
        ; 函数定义
        (function_declaration
          name: (identifier) @function.name
        ) @function.def
        
        ; 方法定义
        (method_declaration
          name: (field_identifier) @method.name
        ) @method.def
        
        ; 结构体定义
        (type_declaration
          (type_spec
            name: (identifier) @struct.name
            type: (struct_type)
          )
        ) @struct.def
        
        ; 接口定义
        (type_declaration
          (type_spec
            name: (identifier) @interface.name
            type: (interface_type)
          )
        ) @interface.def
        ";

/// The matches of the structure query of a language over a text, for the
/// four languages with a grammar; none for the others.
pub open spec fn structure_matches_of(language: Seq<char>, source: Seq<char>) -> Option<Seq<Seq<CaptureNodeModel>>> {
    if language == "rust"@ {
        rust_query_matches_of(source, RUST_STRUCTURE_QUERY@)
    } else if language == "java"@ {
        java_query_matches_of(source, JAVA_STRUCTURE_QUERY@)
    } else if language == "python"@ {
        python_query_matches_of(source, PYTHON_STRUCTURE_QUERY@)
    } else if language == "go"@ {
        go_query_matches_of(source, GO_STRUCTURE_QUERY@)
    } else {
        None
    }
}

/// Whether a language has a grammar here.
pub open spec fn has_grammar(language: Seq<char>) -> bool {
    language == "rust"@ || language == "java"@ || language == "python"@ || language == "go"@
}

/// The matches of the structure query of a language over a text (see
/// `structure_matches_of`).
fn structure_matches(language: &str, source: &str) -> (res: Option<Vec<QueryMatch>>)
    ensures
        opt_match_views(res) == structure_matches_of(language@, source@),
{
    if strs_eq(language, "rust") {
        rust_query_matches(source, RUST_STRUCTURE_QUERY)
    } else if strs_eq(language, "java") {
        java_query_matches(source, JAVA_STRUCTURE_QUERY)
    } else if strs_eq(language, "python") {
        python_query_matches(source, PYTHON_STRUCTURE_QUERY)
    } else if strs_eq(language, "go") {
        go_query_matches(source, GO_STRUCTURE_QUERY)
    } else {
        None
    }
}

/// Whether the scan of a Rust item's children for a public mark ends (see
/// `scan_ends`).
fn children_scan_ends(c: &CaptureNode) -> (res: bool)
    ensures
        res == scan_ends(c@.children),
{
    let ghost cs = c@.children;
    let mut i: usize = 0;
    while i < c.children.len()
        invariant
            cs == c@.children,
            cs.len() == c.children@.len(),
            forall|t: int| 0 <= t < cs.len() ==> cs[t] == ((#[trigger] c.children@[t]).0@, c.children@[t].1@),
            0 <= i <= cs.len(),
            first_marking(cs, 0) == first_marking(cs, i as int),
            forall|t: int| 0 <= t < i ==> (#[trigger] cs[t]).1.len() > 0,
        decreases c.children.len() - i,
    {
        assert(cs[i as int] == (c.children@[i as int].0@, c.children@[i as int].1@));
        if c.children[i].1.as_str().is_empty() {
            assert(cs[i as int].1.len() == 0);
            proof {
                lemma_first_marking_from(cs, i as int);
            }
            assert(i < scanned(cs));
            return false;
        }
        if child_marks_public(&c.children[i].0, &c.children[i].1) {
            assert(first_marking(cs, i as int) == Some(i as int));
            assert(scanned(cs) == i + 1);
            return true;
        }
        i = i + 1;
    }
    assert(scanned(cs) == cs.len());
    true
}

/// The first marking child at or after `i` stands at or after `i`.
proof fn lemma_first_marking_from(cs: Seq<(Seq<char>, Seq<char>)>, i: int)
    requires
        0 <= i,
    ensures
        first_marking(cs, i) matches Some(k) ==> i <= k < cs.len(),
    decreases cs.len() - i,
{
    if i < cs.len() && !marks_public(cs[i]) {
        lemma_first_marking_from(cs, i + 1);
    }
}

/// Whether a capture names a declaration (see `names_declaration`).
fn capture_names_declaration(c: &CaptureNode) -> (res: bool)
    ensures
        res == names_declaration(c@),
{
    let name_chars = chars_of(c.capture_name.as_str());
    let parts = split_char(name_chars.as_slice(), '.');
    proof {
        assert(seq!['.'] =~= seq!['.']);
    }
    parts.len() >= 2 && crate::text::chars_eq_str(parts[1].as_slice(), "name")
}

/// Whether the scan for a public mark ends for every naming Rust capture of
/// the matches (see `scans_end`).
fn matches_scan_end(language: &str, source: &str, ms: &Vec<QueryMatch>) -> (res: bool)
    ensures
        res == scans_end(language@, source@, match_views(ms@)),
{
    if !strs_eq(language, "rust") {
        return true;
    }
    let src = chars_of(source);
    let source_len = chars_byte_len(src.as_slice());
    let ghost mv = match_views(ms@);
    let mut i: usize = 0;
    while i < ms.len()
        invariant
            i <= ms@.len(),
            mv == match_views(ms@),
            language@ == "rust"@,
            source_len == byte_len(source@),
            forall|a: int, b: int|
                0 <= a < i && 0 <= b < mv[a].len() && is_valid_capture(source@, #[trigger] mv[a][b])
                    && names_declaration(mv[a][b]) ==> scan_ends(mv[a][b].children),
        decreases ms.len() - i,
    {
        let cs = &ms[i].captures;
        assert(mv[i as int] == capture_views(cs@));
        let mut j: usize = 0;
        while j < cs.len()
            invariant
                i < ms@.len(),
                j <= cs@.len(),
                mv == match_views(ms@),
                mv[i as int] == capture_views(cs@),
                language@ == "rust"@,
                source_len == byte_len(source@),
                forall|a: int, b: int|
                    0 <= a < i && 0 <= b < mv[a].len() && is_valid_capture(source@, #[trigger] mv[a][b])
                        && names_declaration(mv[a][b]) ==> scan_ends(mv[a][b].children),
                forall|b: int|
                    0 <= b < j && is_valid_capture(source@, #[trigger] mv[i as int][b]) && names_declaration(
                        mv[i as int][b],
                    ) ==> scan_ends(mv[i as int][b].children),
            decreases cs.len() - j,
        {
            let c = &cs[j];
            assert(mv[i as int][j as int] == c@);
            if c.start_byte < c.end_byte && c.end_byte <= source_len && capture_names_declaration(c) {
                if !children_scan_ends(c) {
                    assert(!scans_end(language@, source@, mv));
                    return false;
                }
            }
            j = j + 1;
        }
        i = i + 1;
    }
    true
}

/// The declarations of a file from its language and text (see
/// `file_structure`): for a language with a grammar, those the language's
/// structure query names in the text (none where the text cannot be parsed
/// or the query cannot be made); for any other, the stand-ins. `None` where
/// the scan for a Rust item's public mark would not end (see `scans_end`).
pub fn analyze_source_structure(language: &str, source: &str) -> (res: Option<Vec<AffectedNode>>)
    ensures
        has_grammar(language@) ==> match structure_matches_of(language@, source@) {
            Some(ms) => if scans_end(language@, source@, ms) {
                (res matches Some(ns) && node_views(ns@) == file_structure(language@, source@, Some(ms)))
            } else {
                res is None
            },
            None => (res matches Some(ns) && node_views(ns@) == file_structure(
                language@,
                source@,
                Some(Seq::empty()),
            )),
        },
        !has_grammar(language@) ==> (res matches Some(ns) && node_views(ns@) == file_structure(
            language@,
            source@,
            None,
        )),
{
    let grammar = strs_eq(language, "rust") || strs_eq(language, "java") || strs_eq(language, "python")
        || strs_eq(language, "go");
    if !grammar {
        return Some(analyze_file_structure(language, source, None));
    }
    let ms = match structure_matches(language, source) {
        Some(ms) => ms,
        None => {
            let empty: Vec<QueryMatch> = Vec::new();
            assert(match_views(empty@) =~= Seq::<Seq<CaptureNodeModel>>::empty());
            return Some(analyze_file_structure(language, source, Some(&empty)));
        },
    };
    if !matches_scan_end(language, source, &ms) {
        return None;
    }
    Some(analyze_file_structure(language, source, Some(&ms)))
}

} // verus!
