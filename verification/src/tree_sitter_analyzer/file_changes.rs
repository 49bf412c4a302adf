//! Mapping the hunks of a changed file onto the syntax nodes they touch.
//!
//! The caller runs the language's query over the parsed file and reports
//! each match as plain values (`QueryMatch`); from the file's source bytes,
//! its hunks and those matches this module finds the byte range of each
//! hunk, the nodes overlapping it, how each node was changed, and returns
//! the nodes ordered by position, type and name without repeats.

use vstd::prelude::*;
use vstd::string::{StringExecFns, StringSliceAdditionalSpecFns};
use crate::errors::TreeSitterError;
use crate::text::{
    chars_of, contains_chars, contains_seq, contains_str, copy_strings, ends_with, extend_str, extend_string,
    is_prefix_of, is_suffix_of, join_parts, join_seqs, split_char, split_seq, starts_with,
    starts_with_char, string_eq_str, string_views, strip_leading_char, strip_prefixes, to_string,
    views,
};
use crate::tree_sitter_analyzer::analyzer::{
    java_refined_node, refine_java_nodes, refine_rust_nodes, rust_refined_node,
};
use crate::tree_sitter_analyzer::model::{
    hunk_views, node_views, AffectedNode, AffectedNodeModel, DiffHunk, DiffHunkModel, HunkRange,
};

verus! {

// ---------------------------------------------------------------------------
// The byte range of a hunk
// ---------------------------------------------------------------------------

/// The number of newline bytes among the first `k` bytes.
pub open spec fn newlines(b: Seq<u8>, k: int) -> nat
    decreases k,
{
    if k <= 0 {
        0
    } else {
        newlines(b, k - 1) + if b[k - 1] == 10u8 {
            1nat
        } else {
            0nat
        }
    }
}

proof fn lemma_newlines_bound(b: Seq<u8>, k: int)
    requires
        0 <= k,
    ensures
        newlines(b, k) <= k,
    decreases k,
{
    if k > 0 {
        lemma_newlines_bound(b, k - 1);
    }
}

/// The first byte position from `i` on at which line `line` (counted from
/// 0) begins, scanning only positions inside the text.
pub open spec fn scan_line_start(b: Seq<u8>, line: nat, i: int) -> Option<int>
    decreases b.len() - i,
{
    if i < 0 || i >= b.len() {
        None
    } else if newlines(b, i) == line {
        Some(i)
    } else {
        scan_line_start(b, line, i + 1)
    }
}

/// The first position from `i` on just past a byte that completes `line`
/// lines.
pub open spec fn scan_line_end(b: Seq<u8>, line: nat, i: int) -> Option<int>
    decreases b.len() - i,
{
    if i < 0 || i >= b.len() {
        None
    } else if newlines(b, i + 1) == line {
        Some(i + 1)
    } else {
        scan_line_end(b, line, i + 1)
    }
}

/// The first line of a hunk's new range, counted from 0.
pub open spec fn hunk_first_line(r: HunkRange) -> nat {
    if r.start >= 1 {
        (r.start - 1) as nat
    } else {
        0
    }
}

/// The byte range `(start, end)` of a hunk's new lines in the source, or
/// none when the hunk starts past the end of the source. The start is where
/// the hunk's first line begins (0 when no scanned position begins it); the
/// end is just past the byte that completes the hunk's last line, or the end
/// of the source when no byte does.
pub open spec fn hunk_byte_range(b: Seq<u8>, r: HunkRange) -> Option<(int, int)> {
    let l = hunk_first_line(r);
    let e = (l + r.count) as nat;
    let end = match scan_line_end(b, e, 0) {
        Some(j) => j,
        None => b.len() as int,
    };
    match scan_line_start(b, l, 0) {
        Some(s) => Some((s, end)),
        None => if newlines(b, b.len() as int) < l && l > 0 {
            None
        } else {
            Some((0, end))
        },
    }
}

/// The byte range of a hunk's new lines (see `hunk_byte_range`).
pub fn hunk_bytes(b: &[u8], r: HunkRange) -> (res: Option<(usize, usize)>)
    requires
        hunk_first_line(r) + r.count <= usize::MAX,
    ensures
        match res {
            Some((s, e)) => hunk_byte_range(b@, r) == Some((s as int, e as int)),
            None => hunk_byte_range(b@, r) is None,
        },
{
    let first: usize = if r.start >= 1 {
        r.start - 1
    } else {
        0
    };
    let last: usize = first + r.count;
    let mut start: Option<usize> = None;
    let mut line: usize = 0;
    let mut i: usize = 0;
    while i < b.len()
        invariant_except_break
            start is None,
        invariant
            i <= b@.len(),
            first == hunk_first_line(r),
            line == newlines(b@, i as int),
            scan_line_start(b@, first as nat, 0) == scan_line_start(b@, first as nat, i as int),
        ensures
            match start {
                Some(s) => scan_line_start(b@, first as nat, 0) == Some(s as int),
                None => scan_line_start(b@, first as nat, 0) is None && line == newlines(
                    b@,
                    b@.len() as int,
                ),
            },
        decreases b.len() - i,
    {
        if line == first {
            start = Some(i);
            break;
        }
        proof {
            lemma_newlines_bound(b@, i + 1);
        }
        if b[i] == 10u8 {
            line = line + 1;
        }
        i = i + 1;
    }
    let mut end: usize = b.len();
    let mut count: usize = 0;
    let mut j: usize = 0;
    while j < b.len()
        invariant_except_break
            count == newlines(b@, j as int),
            end == b@.len(),
        invariant
            j <= b@.len(),
            scan_line_end(b@, last as nat, 0) == scan_line_end(b@, last as nat, j as int),
        ensures
            end as int == match scan_line_end(b@, last as nat, 0) {
                Some(k) => k,
                None => b@.len() as int,
            },
        decreases b.len() - j,
    {
        proof {
            lemma_newlines_bound(b@, j + 1);
        }
        if b[j] == 10u8 {
            count = count + 1;
        }
        if count == last {
            end = j + 1;
            break;
        }
        j = j + 1;
    }
    match start {
        Some(s) => Some((s, end)),
        None => {
            if line < first && first > 0 {
                None
            } else {
                Some((0, end))
            }
        },
    }
}

// ---------------------------------------------------------------------------
// Additions and deletions of a hunk
// ---------------------------------------------------------------------------

/// The added lines of a hunk, without their leading `+` characters.
pub open spec fn hunk_additions(lines: Seq<Seq<char>>) -> Seq<Seq<char>>
    decreases lines.len(),
{
    if lines.len() == 0 {
        seq![]
    } else {
        let l = lines.last();
        if l.len() > 0 && l[0] == '+' {
            hunk_additions(lines.drop_last()).push(strip_prefixes(l, seq!['+']))
        } else {
            hunk_additions(lines.drop_last())
        }
    }
}

/// The deleted lines of a hunk, without their leading `-` characters.
pub open spec fn hunk_deletions(lines: Seq<Seq<char>>) -> Seq<Seq<char>>
    decreases lines.len(),
{
    if lines.len() == 0 {
        seq![]
    } else {
        let l = lines.last();
        if l.len() > 0 && l[0] == '-' {
            hunk_deletions(lines.drop_last()).push(strip_prefixes(l, seq!['-']))
        } else {
            hunk_deletions(lines.drop_last())
        }
    }
}

/// The added and the deleted lines of a hunk.
pub fn additions_and_deletions(hunk: &DiffHunk) -> (res: (Vec<String>, Vec<String>))
    ensures
        string_views(res.0@) == hunk_additions(hunk@.lines),
        string_views(res.1@) == hunk_deletions(hunk@.lines),
{
    let ghost ls = hunk@.lines;
    let mut additions: Vec<String> = Vec::new();
    let mut deletions: Vec<String> = Vec::new();
    let mut i: usize = 0;
    while i < hunk.lines.len()
        invariant
            ls == hunk@.lines,
            ls == string_views(hunk.lines@),
            i <= ls.len(),
            string_views(additions@) == hunk_additions(ls.take(i as int)),
            string_views(deletions@) == hunk_deletions(ls.take(i as int)),
        decreases hunk.lines.len() - i,
    {
        proof {
            assert(ls.take(i + 1).drop_last() =~= ls.take(i as int));
            assert(ls.take(i + 1).last() == hunk.lines@[i as int]@);
        }
        let l = chars_of(hunk.lines[i].as_str());
        let ghost a0 = string_views(additions@);
        let ghost d0 = string_views(deletions@);
        if starts_with_char(l.as_slice(), '+') {
            let t = strip_leading_char(l.as_slice(), '+');
            additions.push(to_string(&t));
            assert(string_views(additions@) =~= a0.push(t@));
        } else if starts_with_char(l.as_slice(), '-') {
            let t = strip_leading_char(l.as_slice(), '-');
            deletions.push(to_string(&t));
            assert(string_views(deletions@) =~= d0.push(t@));
        }
        i = i + 1;
    }
    proof {
        assert(ls.take(i as int) =~= ls);
    }
    (additions, deletions)
}

/// The kind of change of a hunk as a whole.
pub open spec fn change_operation(adds: Seq<Seq<char>>, dels: Seq<Seq<char>>) -> Seq<char> {
    if adds.len() > 0 && dels.len() > 0 {
        "modified"@
    } else if adds.len() > 0 {
        "added"@
    } else if dels.len() > 0 {
        "deleted"@
    } else {
        "unchanged"@
    }
}

/// How a node was changed: `added_content` when its text holds the added
/// lines joined by newlines (always so when nothing was added),
/// `modified_with_deletion` when it holds one of the deleted lines, and
/// otherwise the hunk's kind of change.
pub open spec fn change_details(text: Seq<char>, adds: Seq<Seq<char>>, dels: Seq<Seq<char>>) -> Seq<
    char,
> {
    if contains_seq(text, join_seqs(adds, "\n"@)) {
        "added_content"@
    } else if dels.len() > 0 && (exists|k: int| 0 <= k < dels.len() && contains_seq(text, #[trigger] dels[k])) {
        "modified_with_deletion"@
    } else {
        change_operation(adds, dels)
    }
}

/// How a node was changed (see `change_details`).
fn change_details_of(text: &[char], joined: &[char], dels: &Vec<String>, adds_empty: bool) -> (res: String)
    ensures
        res@ == (if contains_seq(text@, joined@) {
            "added_content"@
        } else if dels@.len() > 0 && (exists|k: int|
            0 <= k < dels@.len() && contains_seq(text@, #[trigger] string_views(dels@)[k])) {
            "modified_with_deletion"@
        } else if !adds_empty && dels@.len() > 0 {
            "modified"@
        } else if !adds_empty {
            "added"@
        } else if dels@.len() > 0 {
            "deleted"@
        } else {
            "unchanged"@
        }),
{
    if contains_chars(text, joined) {
        return String::from_str("added_content");
    }
    let mut found = false;
    let mut k: usize = 0;
    while k < dels.len()
        invariant
            k <= dels@.len(),
            found == exists|m: int| 0 <= m < k && contains_seq(text@, #[trigger] string_views(dels@)[m]),
        decreases dels.len() - k,
    {
        let d = chars_of(dels[k].as_str());
        assert(string_views(dels@)[k as int] == d@);
        if contains_chars(text, d.as_slice()) {
            found = true;
        }
        k = k + 1;
    }
    if dels.len() > 0 && found {
        String::from_str("modified_with_deletion")
    } else if !adds_empty && dels.len() > 0 {
        String::from_str("modified")
    } else if !adds_empty {
        String::from_str("added")
    } else if dels.len() > 0 {
        String::from_str("deleted")
    } else {
        String::from_str("unchanged")
    }
}

// ---------------------------------------------------------------------------
// Query matches
// ---------------------------------------------------------------------------

/// A captured syntax node, as plain values.
pub struct CaptureNode {
    /// The capture's name in the query, such as `function.name`.
    pub capture_name: String,
    pub start_byte: usize,
    pub end_byte: usize,
    pub start_row: usize,
    pub end_row: usize,
    /// The node's source text.
    pub text: String,
    /// The node's S-expression.
    pub sexp: String,
    /// The kind and source text of each child, in order.
    pub children: Vec<(String, String)>,
}

/// One match of a query: its captures in order.
pub struct QueryMatch {
    pub captures: Vec<CaptureNode>,
}

/// The abstract value of a captured node.
pub struct CaptureNodeModel {
    pub capture_name: Seq<char>,
    pub start_byte: usize,
    pub end_byte: usize,
    pub start_row: usize,
    pub end_row: usize,
    pub text: Seq<char>,
    pub sexp: Seq<char>,
    pub children: Seq<(Seq<char>, Seq<char>)>,
}

impl View for CaptureNode {
    type V = CaptureNodeModel;

    open spec fn view(&self) -> CaptureNodeModel {
        CaptureNodeModel {
            capture_name: self.capture_name@,
            start_byte: self.start_byte,
            end_byte: self.end_byte,
            start_row: self.start_row,
            end_row: self.end_row,
            text: self.text@,
            sexp: self.sexp@,
            children: self.children@.map_values(|c: (String, String)| (c.0@, c.1@)),
        }
    }
}

/// The views of a sequence of captures.
pub open spec fn capture_views(v: Seq<CaptureNode>) -> Seq<CaptureNodeModel> {
    v.map_values(|c: CaptureNode| c@)
}

/// The views of a sequence of matches.
pub open spec fn match_views(v: Seq<QueryMatch>) -> Seq<Seq<CaptureNodeModel>> {
    v.map_values(|m: QueryMatch| capture_views(m.captures@))
}

/// The position of the first child of the given kind, from `i` on.
pub open spec fn first_child_of_kind(cs: Seq<(Seq<char>, Seq<char>)>, kind: Seq<char>, i: int) -> Option<int>
    decreases cs.len() - i,
{
    if i < 0 || i >= cs.len() {
        None
    } else if cs[i].0 == kind {
        Some(i)
    } else {
        first_child_of_kind(cs, kind, i + 1)
    }
}

/// Whether a node is public: in Rust, a visibility modifier holding `pub`
/// (the node itself, or its first visibility-modifier child); in Java, a
/// first modifiers child holding `public`; in other languages never.
pub open spec fn node_is_public(language: Seq<char>, n: CaptureNodeModel) -> bool {
    if language == "rust"@ {
        if is_prefix_of("(visibility_modifier"@, n.sexp) && contains_seq(n.text, "pub"@) {
            true
        } else {
            match first_child_of_kind(n.children, "visibility_modifier"@, 0) {
                Some(k) => contains_seq(n.children[k].1, "pub"@),
                None => false,
            }
        }
    } else if language == "java"@ {
        match first_child_of_kind(n.children, "modifiers"@, 0) {
            Some(k) => contains_seq(n.children[k].1, "public"@),
            None => false,
        }
    } else {
        false
    }
}

/// The text of the first child of the given kind, if any.
fn child_text_of_kind(node: &CaptureNode, kind: &str) -> (res: Option<Vec<char>>)
    ensures
        match first_child_of_kind(node@.children, kind@, 0) {
            Some(k) => res matches Some(t) && t@ == node@.children[k].1,
            None => res is None,
        },
{
    let ghost cs = node@.children;
    let mut i: usize = 0;
    while i < node.children.len()
        invariant
            cs == node@.children,
            i <= cs.len(),
            first_child_of_kind(cs, kind@, 0) == first_child_of_kind(cs, kind@, i as int),
        decreases node.children.len() - i,
    {
        assert(cs[i as int] == (node.children@[i as int].0@, node.children@[i as int].1@));
        if string_eq_str(&node.children[i].0, kind) {
            return Some(chars_of(node.children[i].1.as_str()));
        }
        i = i + 1;
    }
    None
}

/// Whether a captured node is public (see `node_is_public`).
pub fn is_node_public(language: &String, node: &CaptureNode) -> (res: bool)
    ensures
        res == node_is_public(language@, node@),
{
    if string_eq_str(language, "rust") {
        let sexp = chars_of(node.sexp.as_str());
        let text = chars_of(node.text.as_str());
        if starts_with(sexp.as_slice(), "(visibility_modifier") && contains_str(
            text.as_slice(),
            "pub",
        ) {
            return true;
        }
        match child_text_of_kind(node, "visibility_modifier") {
            Some(t) => contains_str(t.as_slice(), "pub"),
            None => false,
        }
    } else if string_eq_str(language, "java") {
        match child_text_of_kind(node, "modifiers") {
            Some(t) => contains_str(t.as_slice(), "public"),
            None => false,
        }
    } else {
        false
    }
}

/// The name of a match: the text of its first capture whose name ends with
/// `.name`, or `unknown`.
pub open spec fn match_name(cs: Seq<CaptureNodeModel>, i: int) -> Seq<char>
    decreases cs.len() - i,
{
    if i < 0 || i >= cs.len() {
        "unknown"@
    } else if is_suffix_of(".name"@, cs[i].capture_name) {
        cs[i].text
    } else {
        match_name(cs, i + 1)
    }
}

/// The name of a match (see `match_name`).
fn name_of_match(m: &QueryMatch) -> (res: String)
    ensures
        res@ == match_name(capture_views(m.captures@), 0),
{
    let ghost cs = capture_views(m.captures@);
    let mut i: usize = 0;
    while i < m.captures.len()
        invariant
            cs == capture_views(m.captures@),
            i <= cs.len(),
            match_name(cs, 0) == match_name(cs, i as int),
        decreases m.captures.len() - i,
    {
        let n = chars_of(m.captures[i].capture_name.as_str());
        assert(cs[i as int] == m.captures@[i as int]@);
        if ends_with(n.as_slice(), ".name") {
            return m.captures[i].text.clone();
        }
        i = i + 1;
    }
    String::from_str("unknown")
}

/// The node kind a capture stands for: its name up to the first `.`.
pub open spec fn capture_kind(capture_name: Seq<char>) -> Seq<char> {
    split_seq(capture_name, seq!['.'])[0]
}

/// The affected node for a capture of a match that overlaps a hunk.
pub open spec fn capture_node(
    language: Seq<char>,
    cs: Seq<CaptureNodeModel>,
    c: CaptureNodeModel,
    adds: Seq<Seq<char>>,
    dels: Seq<Seq<char>>,
) -> AffectedNodeModel {
    AffectedNodeModel {
        node_type: capture_kind(c.capture_name),
        name: match_name(cs, 0),
        range: (c.start_byte, c.end_byte),
        is_public: node_is_public(language, c),
        content: Some(c.text),
        line_range: (c.start_row, c.end_row),
        change_type: Some(change_details(c.text, adds, dels)),
        additions: if adds.len() > 0 {
            Some(adds)
        } else {
            None
        },
        deletions: if dels.len() > 0 {
            Some(dels)
        } else {
            None
        },
    }
}

/// The affected nodes of the first `n` captures of a match that overlap
/// the byte range `[s, e)`.
pub open spec fn match_nodes(
    language: Seq<char>,
    cs: Seq<CaptureNodeModel>,
    n: int,
    s: int,
    e: int,
    adds: Seq<Seq<char>>,
    dels: Seq<Seq<char>>,
) -> Seq<AffectedNodeModel>
    decreases n,
{
    if n <= 0 {
        seq![]
    } else {
        let c = cs[n - 1];
        let rest = match_nodes(language, cs, n - 1, s, e, adds, dels);
        if c.start_byte < e && c.end_byte > s {
            rest.push(capture_node(language, cs, c, adds, dels))
        } else {
            rest
        }
    }
}

/// The affected nodes of the first `n` matches for a byte range, in order.
pub open spec fn matches_nodes(
    language: Seq<char>,
    ms: Seq<Seq<CaptureNodeModel>>,
    n: int,
    s: int,
    e: int,
    adds: Seq<Seq<char>>,
    dels: Seq<Seq<char>>,
) -> Seq<AffectedNodeModel>
    decreases n,
{
    if n <= 0 {
        seq![]
    } else {
        matches_nodes(language, ms, n - 1, s, e, adds, dels) + match_nodes(
            language,
            ms[n - 1],
            ms[n - 1].len() as int,
            s,
            e,
            adds,
            dels,
        )
    }
}

/// The affected nodes of a hunk: those of every match overlapping its byte
/// range; none when the hunk starts past the end of the source.
pub open spec fn hunk_nodes(
    language: Seq<char>,
    b: Seq<u8>,
    ms: Seq<Seq<CaptureNodeModel>>,
    h: DiffHunkModel,
) -> Seq<AffectedNodeModel> {
    match hunk_byte_range(b, h.new_range) {
        Some((s, e)) => matches_nodes(
            language,
            ms,
            ms.len() as int,
            s,
            e,
            hunk_additions(h.lines),
            hunk_deletions(h.lines),
        ),
        None => seq![],
    }
}

/// The affected nodes of the first `n` hunks, in order.
pub open spec fn raw_nodes(
    language: Seq<char>,
    b: Seq<u8>,
    ms: Seq<Seq<CaptureNodeModel>>,
    hs: Seq<DiffHunkModel>,
    n: int,
) -> Seq<AffectedNodeModel>
    decreases n,
{
    if n <= 0 {
        seq![]
    } else {
        raw_nodes(language, b, ms, hs, n - 1) + hunk_nodes(language, b, ms, hs[n - 1])
    }
}

// ---------------------------------------------------------------------------
// Building the nodes of a hunk
// ---------------------------------------------------------------------------

/// The characters of each string.
fn chars_of_all(v: &Vec<String>) -> (res: Vec<Vec<char>>)
    ensures
        views(res@) == string_views(v@),
{
    let mut res: Vec<Vec<char>> = Vec::new();
    let mut i: usize = 0;
    while i < v.len()
        invariant
            i <= v@.len(),
            views(res@) == string_views(v@).take(i as int),
        decreases v.len() - i,
    {
        let ghost before = views(res@);
        let t = chars_of(v[i].as_str());
        let ghost tv = t@;
        res.push(t);
        assert(views(res@) =~= before.push(tv));
        assert(string_views(v@)[i as int] == tv);
        assert(views(res@) =~= string_views(v@).take(i + 1));
        i = i + 1;
    }
    assert(string_views(v@).take(i as int) =~= string_views(v@));
    res
}

/// The node kind a capture stands for (see `capture_kind`).
fn kind_of_capture(capture_name: &String) -> (res: String)
    ensures
        res@ == capture_kind(capture_name@),
{
    let n = chars_of(capture_name.as_str());
    let parts = split_char(n.as_slice(), '.');
    assert(views(parts@)[0] == parts@[0]@);
    to_string(&parts[0])
}

/// Appends the affected nodes of a hunk (see `hunk_nodes`).
fn push_hunk_nodes(
    language: &String,
    b: &[u8],
    query_matches: &Vec<QueryMatch>,
    hunk: &DiffHunk,
    out: &mut Vec<AffectedNode>,
)
    requires
        hunk_first_line(hunk.new_range) + hunk.new_range.count <= usize::MAX,
    ensures
        node_views(final(out)@) == node_views(old(out)@) + hunk_nodes(
            language@,
            b@,
            match_views(query_matches@),
            hunk@,
        ),
{
    let ghost out0 = node_views(out@);
    let ghost ms = match_views(query_matches@);
    match hunk_bytes(b, hunk.new_range) {
        None => {
            assert(node_views(out@) =~= out0 + hunk_nodes(language@, b@, ms, hunk@));
        },
        Some((s, e)) => {
            let (adds, dels) = additions_and_deletions(hunk);
            let ghost av = string_views(adds@);
            let ghost dv = string_views(dels@);
            let add_chars = chars_of_all(&adds);
            let joined = join_parts(&add_chars, "\n");
            let mut a: usize = 0;
            while a < query_matches.len()
                invariant
                    ms == match_views(query_matches@),
                    a <= ms.len(),
                    av == string_views(adds@),
                    dv == string_views(dels@),
                    joined@ == join_seqs(av, "\n"@),
                    node_views(out@) == out0 + matches_nodes(
                        language@,
                        ms,
                        a as int,
                        s as int,
                        e as int,
                        av,
                        dv,
                    ),
                decreases query_matches.len() - a,
            {
                let m = &query_matches[a];
                let ghost cs = ms[a as int];
                assert(cs == capture_views(m.captures@));
                let name = name_of_match(m);
                let ghost mid = node_views(out@);
                let mut k: usize = 0;
                while k < m.captures.len()
                    invariant
                        cs == capture_views(m.captures@),
                        k <= cs.len(),
                        av == string_views(adds@),
                        dv == string_views(dels@),
                        joined@ == join_seqs(av, "\n"@),
                        name@ == match_name(cs, 0),
                        node_views(out@) == mid + match_nodes(
                            language@,
                            cs,
                            k as int,
                            s as int,
                            e as int,
                            av,
                            dv,
                        ),
                    decreases m.captures.len() - k,
                {
                    let c = &m.captures[k];
                    assert(cs[k as int] == c@);
                    let ghost before = node_views(out@);
                    if c.start_byte < e && c.end_byte > s {
                        let text = chars_of(c.text.as_str());
                        let details = change_details_of(
                            text.as_slice(),
                            joined.as_slice(),
                            &dels,
                            adds.len() == 0,
                        );
                        let node = AffectedNode {
                            node_type: kind_of_capture(&c.capture_name),
                            name: name.clone(),
                            range: (c.start_byte, c.end_byte),
                            is_public: is_node_public(language, c),
                            content: Some(c.text.clone()),
                            line_range: (c.start_row, c.end_row),
                            change_type: Some(details),
                            additions: if adds.len() > 0 {
                                Some(copy_strings(&adds))
                            } else {
                                None
                            },
                            deletions: if dels.len() > 0 {
                                Some(copy_strings(&dels))
                            } else {
                                None
                            },
                        };
                        assert(node@ == capture_node(language@, cs, c@, av, dv));
                        out.push(node);
                        assert(node_views(out@) =~= before.push(
                            capture_node(language@, cs, c@, av, dv),
                        ));
                    }
                    k = k + 1;
                }
                assert(cs.len() == m.captures@.len());
                a = a + 1;
            }
        },
    }
}

// ---------------------------------------------------------------------------
// Sorting nodes and removing repeats
// ---------------------------------------------------------------------------

/// `a` comes before `b` in the order of `String`: lexicographic by
/// character (which is the byte order of their UTF-8 encodings).
pub open spec fn text_lt(a: Seq<char>, b: Seq<char>) -> bool
    decreases a.len(),
{
    if a.len() == 0 {
        b.len() > 0
    } else if b.len() == 0 {
        false
    } else if a[0] != b[0] {
        (a[0] as u32) < (b[0] as u32)
    } else {
        text_lt(a.drop_first(), b.drop_first())
    }
}

/// Node `a` comes strictly before node `b` in the order by start byte, end
/// byte, type and name.
pub open spec fn node_key_lt(a: AffectedNodeModel, b: AffectedNodeModel) -> bool {
    a.range.0 < b.range.0 || (a.range.0 == b.range.0 && (a.range.1 < b.range.1 || (a.range.1
        == b.range.1 && (text_lt(a.node_type, b.node_type) || (a.node_type == b.node_type
        && text_lt(a.name, b.name))))))
}

/// Nodes `a` and `b` have the same position, type and name.
pub open spec fn node_key_eq(a: AffectedNodeModel, b: AffectedNodeModel) -> bool {
    a.range == b.range && a.node_type == b.node_type && a.name == b.name
}

/// Where a stable insertion puts `x` into `s`, searching from `j`: before
/// the first node that comes strictly after it.
pub open spec fn insert_position(s: Seq<AffectedNodeModel>, x: AffectedNodeModel, j: int) -> int
    decreases s.len() - j,
{
    if j < 0 || j >= s.len() {
        s.len() as int
    } else if node_key_lt(x, s[j]) {
        j
    } else {
        insert_position(s, x, j + 1)
    }
}

/// The nodes stably sorted by start byte, end byte, type and name: each
/// node in turn goes after every earlier node that does not come after it.
pub open spec fn sort_nodes(s: Seq<AffectedNodeModel>) -> Seq<AffectedNodeModel>
    decreases s.len(),
{
    if s.len() == 0 {
        seq![]
    } else {
        let t = sort_nodes(s.drop_last());
        t.insert(insert_position(t, s.last(), 0), s.last())
    }
}

/// The nodes without those equal in position, type and name to the node
/// just before them.
pub open spec fn dedup_nodes(s: Seq<AffectedNodeModel>) -> Seq<AffectedNodeModel>
    decreases s.len(),
{
    if s.len() == 0 {
        seq![]
    } else if s.len() >= 2 && node_key_eq(s[s.len() - 2], s.last()) {
        dedup_nodes(s.drop_last())
    } else {
        dedup_nodes(s.drop_last()).push(s.last())
    }
}

/// Whether `a` comes before `b` (see `text_lt`).
fn text_lt_exec(a: &String, b: &String) -> (res: bool)
    ensures
        res == text_lt(a@, b@),
{
    let x = chars_of(a.as_str());
    let y = chars_of(b.as_str());
    let mut i: usize = 0;
    assert(x@.skip(0) =~= x@);
    assert(y@.skip(0) =~= y@);
    while i < x.len() && i < y.len() && x[i] == y[i]
        invariant
            i <= x@.len(),
            i <= y@.len(),
            text_lt(x@, y@) == text_lt(x@.skip(i as int), y@.skip(i as int)),
        decreases x.len() - i,
    {
        proof {
            assert(x@.skip(i as int).drop_first() =~= x@.skip(i + 1));
            assert(y@.skip(i as int).drop_first() =~= y@.skip(i + 1));
        }
        i = i + 1;
    }
    if i == x.len() {
        i < y.len()
    } else if i == y.len() {
        false
    } else {
        proof {
            assert(x@.skip(i as int)[0] == x@[i as int]);
            assert(y@.skip(i as int)[0] == y@[i as int]);
        }
        (x[i] as u32) < (y[i] as u32)
    }
}

/// Whether node `a` comes strictly before node `b` (see `node_key_lt`).
fn node_key_lt_exec(a: &AffectedNode, b: &AffectedNode) -> (res: bool)
    ensures
        res == node_key_lt(a@, b@),
{
    if a.range.0 != b.range.0 {
        return a.range.0 < b.range.0;
    }
    if a.range.1 != b.range.1 {
        return a.range.1 < b.range.1;
    }
    if text_lt_exec(&a.node_type, &b.node_type) {
        return true;
    }
    if a.node_type != b.node_type {
        return false;
    }
    text_lt_exec(&a.name, &b.name)
}

/// Whether nodes `a` and `b` have the same position, type and name.
fn node_key_eq_exec(a: &AffectedNode, b: &AffectedNode) -> (res: bool)
    ensures
        res == node_key_eq(a@, b@),
{
    a.range.0 == b.range.0 && a.range.1 == b.range.1 && a.node_type == b.node_type && a.name
        == b.name
}

/// Stably sorts nodes by start byte, end byte, type and name (see
/// `sort_nodes`).
pub fn sort_affected_nodes(nodes: Vec<AffectedNode>) -> (res: Vec<AffectedNode>)
    ensures
        node_views(res@) == sort_nodes(node_views(nodes@)),
{
    let ghost nv = node_views(nodes@);
    let mut rest = nodes;
    let mut sorted: Vec<AffectedNode> = Vec::new();
    let mut k: usize = 0;
    let n = rest.len();
    assert(node_views(sorted@) =~= sort_nodes(nv.take(0)));
    while k < n
        invariant
            n == nv.len(),
            k <= n,
            node_views(rest@) == nv.skip(k as int),
            rest@.len() + k == n,
            node_views(sorted@) == sort_nodes(nv.take(k as int)),
        decreases n - k,
    {
        let ghost rv = node_views(rest@);
        let ghost r0 = rest@;
        let x = rest.remove(0);
        proof {
            assert(rv[0] == x@);
            assert(rest@ == r0.remove(0));
            assert forall|j: int| 0 <= j < rest@.len() implies #[trigger] node_views(rest@)[j] == nv.skip(k + 1)[j] by {
                assert(rest@[j] == r0[j + 1]);
                assert(rv[j + 1] == nv.skip(k as int)[j + 1]);
            }
            assert(node_views(rest@) =~= nv.skip(k + 1));
            assert(nv.take(k + 1).drop_last() =~= nv.take(k as int));
            assert(nv.take(k + 1).last() == x@);
        }
        let ghost t = node_views(sorted@);
        let mut j: usize = 0;
        while j < sorted.len() && !node_key_lt_exec(&x, &sorted[j])
            invariant
                t == node_views(sorted@),
                j <= t.len(),
                insert_position(t, x@, 0) == insert_position(t, x@, j as int),
            decreases sorted.len() - j,
        {
            j = j + 1;
        }
        let ghost xv = x@;
        sorted.insert(j, x);
        assert(node_views(sorted@) =~= t.insert(j as int, xv));
        k = k + 1;
    }
    assert(nv.take(k as int) =~= nv);
    sorted
}

/// Removes each node equal in position, type and name to the node just
/// before it (see `dedup_nodes`).
pub fn dedup_affected_nodes(nodes: Vec<AffectedNode>) -> (res: Vec<AffectedNode>)
    ensures
        node_views(res@) == dedup_nodes(node_views(nodes@)),
{
    let ghost nv = node_views(nodes@);
    let mut rest = nodes;
    let mut kept: Vec<AffectedNode> = Vec::new();
    let mut k: usize = 0;
    let n = rest.len();
    assert(node_views(kept@) =~= dedup_nodes(nv.take(0)));
    while k < n
        invariant
            n == nv.len(),
            k <= n,
            node_views(rest@) == nv.skip(k as int),
            rest@.len() + k == n,
            node_views(kept@) == dedup_nodes(nv.take(k as int)),
            k > 0 ==> kept@.len() > 0 && node_key_eq(kept@.last()@, nv[k - 1]),
        decreases n - k,
    {
        let ghost rv = node_views(rest@);
        let ghost r0 = rest@;
        let x = rest.remove(0);
        proof {
            assert(rv[0] == x@);
            assert(rest@ == r0.remove(0));
            assert forall|j: int| 0 <= j < rest@.len() implies #[trigger] node_views(rest@)[j] == nv.skip(k + 1)[j] by {
                assert(rest@[j] == r0[j + 1]);
                assert(rv[j + 1] == nv.skip(k as int)[j + 1]);
            }
            assert(node_views(rest@) =~= nv.skip(k + 1));
            assert(nv.take(k + 1).drop_last() =~= nv.take(k as int));
            assert(nv.take(k + 1).last() == x@);
            assert(nv[k as int] == x@);
            if k > 0 {
                assert(nv.take(k + 1)[k - 1] == nv[k - 1]);
            }
        }
        let ghost before = node_views(kept@);
        let repeat = kept.len() > 0 && node_key_eq_exec(&kept[kept.len() - 1], &x);
        if !repeat {
            let ghost xv = x@;
            kept.push(x);
            assert(node_views(kept@) =~= before.push(xv));
        }
        k = k + 1;
    }
    assert(nv.take(k as int) =~= nv);
    kept
}

// ---------------------------------------------------------------------------
// The affected nodes of a file
// ---------------------------------------------------------------------------

/// The nodes a file's hunks affect: those of every hunk in order, sorted by
/// position, type and name, without repeats.
pub open spec fn generic_nodes(
    language: Seq<char>,
    b: Seq<u8>,
    ms: Seq<Seq<CaptureNodeModel>>,
    hs: Seq<DiffHunkModel>,
) -> Seq<AffectedNodeModel> {
    dedup_nodes(sort_nodes(raw_nodes(language, b, ms, hs, hs.len() as int)))
}

/// Every hunk's last line number fits in a `usize`.
pub open spec fn hunks_in_range(hs: Seq<DiffHunkModel>) -> bool {
    forall|i: int|
        0 <= i < hs.len() ==> hunk_first_line(#[trigger] hs[i].new_range) + hs[i].new_range.count
            <= usize::MAX
}

/// The error reported when the file's language has no query.
pub open spec fn no_query_message(language: Seq<char>) -> Seq<char> {
    "No query found for language "@ + language
}

/// The nodes a file's hunks affect (see `generic_nodes`), given the file's
/// language, its source and the matches of the language's query over it;
/// without a query for the language the analysis fails.
pub fn analyze_generic_file_changes(
    language: &String,
    source: &String,
    hunks: &Vec<DiffHunk>,
    query_matches: Option<&Vec<QueryMatch>>,
) -> (res: Result<Vec<AffectedNode>, TreeSitterError>)
    requires
        hunks_in_range(hunk_views(hunks@)),
    ensures
        match query_matches {
            None => res matches Err(TreeSitterError::QueryError(m)) && m@ == no_query_message(
                language@,
            ),
            Some(ms) => res matches Ok(ns) && node_views(ns@) == generic_nodes(
                language@,
                vstd::utf8::encode_utf8(source@),
                match_views(ms@),
                hunk_views(hunks@),
            ),
        },
{
    let ms = match query_matches {
        Some(ms) => ms,
        None => {
            let mut v: Vec<char> = Vec::new();
            extend_str(&mut v, "No query found for language ");
            extend_string(&mut v, language);
            return Err(TreeSitterError::QueryError(to_string(&v)));
        },
    };
    let b = source.as_str().as_bytes();
    let ghost hs = hunk_views(hunks@);
    let mut raw: Vec<AffectedNode> = Vec::new();
    let mut i: usize = 0;
    assert(node_views(raw@) =~= raw_nodes(language@, b@, match_views(ms@), hs, 0));
    while i < hunks.len()
        invariant
            hs == hunk_views(hunks@),
            hunks_in_range(hs),
            i <= hs.len(),
            node_views(raw@) == raw_nodes(language@, b@, match_views(ms@), hs, i as int),
        decreases hunks.len() - i,
    {
        assert(hs[i as int] == hunks@[i as int]@);
        assert(hunk_first_line(hs[i as int].new_range) + hs[i as int].new_range.count <= usize::MAX);
        push_hunk_nodes(language, b, ms, &hunks[i], &mut raw);
        i = i + 1;
    }
    let sorted = sort_affected_nodes(raw);
    Ok(dedup_affected_nodes(sorted))
}

/// The nodes a file's hunks affect, refined for the file's language: Java
/// and Rust nodes get their languages' refined types (see
/// `java_refined_node` and `rust_refined_node`), others stay as found.
pub open spec fn file_change_nodes(
    language: Seq<char>,
    b: Seq<u8>,
    ms: Seq<Seq<CaptureNodeModel>>,
    hs: Seq<DiffHunkModel>,
) -> Seq<AffectedNodeModel> {
    let ns = generic_nodes(language, b, ms, hs);
    if language == "java"@ {
        ns.map_values(|n: AffectedNodeModel| java_refined_node(n))
    } else if language == "rust"@ {
        ns.map_values(|n: AffectedNodeModel| rust_refined_node(n))
    } else {
        ns
    }
}

/// The nodes a Java file's hunks affect, with Java types (see
/// `java_refined_node`).
pub fn analyze_java_file_changes(
    source: &String,
    hunks: &Vec<DiffHunk>,
    query_matches: Option<&Vec<QueryMatch>>,
) -> (res: Result<Vec<AffectedNode>, TreeSitterError>)
    requires
        hunks_in_range(hunk_views(hunks@)),
    ensures
        match query_matches {
            None => res matches Err(TreeSitterError::QueryError(m)) && m@ == no_query_message(
                "java"@,
            ),
            Some(ms) => res matches Ok(ns) && node_views(ns@) == generic_nodes(
                "java"@,
                vstd::utf8::encode_utf8(source@),
                match_views(ms@),
                hunk_views(hunks@),
            ).map_values(|n: AffectedNodeModel| java_refined_node(n)),
        },
{
    let language = String::from_str("java");
    let mut nodes = match analyze_generic_file_changes(&language, source, hunks, query_matches) {
        Ok(ns) => ns,
        Err(e) => {
            return Err(e);
        },
    };
    refine_java_nodes(&mut nodes);
    Ok(nodes)
}

/// The nodes a Rust file's hunks affect, with Rust types and visibility
/// (see `rust_refined_node`).
pub fn analyze_rust_file_changes(
    source: &String,
    hunks: &Vec<DiffHunk>,
    query_matches: Option<&Vec<QueryMatch>>,
) -> (res: Result<Vec<AffectedNode>, TreeSitterError>)
    requires
        hunks_in_range(hunk_views(hunks@)),
    ensures
        match query_matches {
            None => res matches Err(TreeSitterError::QueryError(m)) && m@ == no_query_message(
                "rust"@,
            ),
            Some(ms) => res matches Ok(ns) && node_views(ns@) == generic_nodes(
                "rust"@,
                vstd::utf8::encode_utf8(source@),
                match_views(ms@),
                hunk_views(hunks@),
            ).map_values(|n: AffectedNodeModel| rust_refined_node(n)),
        },
{
    let language = String::from_str("rust");
    let mut nodes = match analyze_generic_file_changes(&language, source, hunks, query_matches) {
        Ok(ns) => ns,
        Err(e) => {
            return Err(e);
        },
    };
    refine_rust_nodes(&mut nodes);
    Ok(nodes)
}

/// The nodes a file's hunks affect, refined for its language (see
/// `file_change_nodes`).
pub fn analyze_file_changes(
    language: &String,
    source: &String,
    hunks: &Vec<DiffHunk>,
    query_matches: Option<&Vec<QueryMatch>>,
) -> (res: Result<Vec<AffectedNode>, TreeSitterError>)
    requires
        hunks_in_range(hunk_views(hunks@)),
    ensures
        match query_matches {
            None => res matches Err(TreeSitterError::QueryError(m)) && m@ == no_query_message(
                language@,
            ),
            Some(ms) => res matches Ok(ns) && node_views(ns@) == file_change_nodes(
                language@,
                vstd::utf8::encode_utf8(source@),
                match_views(ms@),
                hunk_views(hunks@),
            ),
        },
{
    if string_eq_str(language, "java") {
        analyze_java_file_changes(source, hunks, query_matches)
    } else if string_eq_str(language, "rust") {
        analyze_rust_file_changes(source, hunks, query_matches)
    } else {
        analyze_generic_file_changes(language, source, hunks, query_matches)
    }
}

} // verus!
