//! Whole-file structure analysis: the declarations that a query names in a
//! file, the declarations that a diff's hunks touch, and the change
//! statistics counted from them.

use vstd::prelude::*;
use vstd::string::StringExecFns;
use crate::tree_sitter_analyzer::diff_analysis::all_nodes;
use crate::errors::TreeSitterError;
use crate::text::{path_extension, path_extension_of, copy_strings, decimal, push_decimal, extend_str, string_views, 
    chars_of, contains_seq, contains_str, is_prefix_of, lines_of, split_char, split_lines,
    split_seq, starts_with, string_byte_len, string_eq_str, to_string, views, byte_len,
};
use crate::tree_sitter_analyzer::file_changes::{capture_views, match_views, CaptureNode, CaptureNodeModel, QueryMatch};
use crate::tree_sitter_analyzer::model::{
    AffectedNode, AffectedNodeModel, ChangeAnalysis, ChangeAnalysisModel, ChangePattern,
    ChangePatternModel, ChangeScope, DiffHunk, DiffHunkModel, FileAnalysis, FileAnalysisModel,
    node_views, analysis_views,
};

verus! {

// ---------------------------------------------------------------------------
// Visibility
// ---------------------------------------------------------------------------

/// Whether a child (kind, text) marks a Rust item public.
pub open spec fn marks_public(c: (Seq<char>, Seq<char>)) -> bool {
    c.0 == "visibility_modifier"@ || c.0 == "pub"@ || c.1 == "pub"@ || is_prefix_of("pub("@, c.1)
}

/// The first child from `i` on that marks the item public.
pub open spec fn first_marking(cs: Seq<(Seq<char>, Seq<char>)>, i: int) -> Option<int>
    decreases cs.len() - i,
{
    if i < 0 || i >= cs.len() {
        None
    } else if marks_public(cs[i]) {
        Some(i)
    } else {
        first_marking(cs, i + 1)
    }
}

/// How many children the scan for a public mark reads: up to and including
/// the first marking child, or all of them.
pub open spec fn scanned(cs: Seq<(Seq<char>, Seq<char>)>) -> int {
    match first_marking(cs, 0) {
        Some(k) => k + 1,
        None => cs.len() as int,
    }
}

/// The scan for a public mark ends: no child it reads is empty (an empty
/// child is where the scan would stay forever).
pub open spec fn scan_ends(cs: Seq<(Seq<char>, Seq<char>)>) -> bool {
    forall|i: int| 0 <= i < scanned(cs) ==> (#[trigger] cs[i]).1.len() > 0
}

/// Whether a declaration counts as public: in Rust, one of its children
/// marks it so; in other languages, its first line holds `public`, `pub `
/// or `pub(`.
pub open spec fn declared_public(language: Seq<char>, source: Seq<char>, c: CaptureNodeModel) -> bool {
    if language == "rust"@ {
        first_marking(c.children, 0) is Some
    } else {
        let ls = lines_of(source);
        c.start_row < ls.len() && (contains_seq(ls[c.start_row as int], "public"@) || contains_seq(
            ls[c.start_row as int],
            "pub "@,
        ) || contains_seq(ls[c.start_row as int], "pub("@))
    }
}

/// Whether a child marks a Rust item public (see `marks_public`).
pub(crate) fn child_marks_public(kind: &String, text: &String) -> (res: bool)
    ensures
        res == marks_public((kind@, text@)),
{
    let t = chars_of(text.as_str());
    string_eq_str(kind, "visibility_modifier") || string_eq_str(kind, "pub") || string_eq_str(
        text,
        "pub",
    ) || starts_with(t.as_slice(), "pub(")
}

/// Whether a declaration counts as public (see `declared_public`).
fn is_declared_public(language: &str, source: &str, c: &CaptureNode) -> (res: bool)
    requires
        language@ == "rust"@ ==> scan_ends(c@.children),
    ensures
        res == declared_public(language@, source@, c@),
{
    if crate::text::strs_eq(language, "rust") {
        let ghost cs = c@.children;
        let mut i: usize = 0;
        while i < c.children.len()
            invariant
                cs == c@.children,
                language@ == "rust"@,
                cs.len() == c.children@.len(),
                forall|t: int| 0 <= t < cs.len() ==> cs[t] == ((#[trigger] c.children@[t]).0@, c.children@[t].1@),
                0 <= i <= cs.len(),
                first_marking(cs, 0) == first_marking(cs, i as int),
            decreases c.children.len() - i,
        {
            if child_marks_public(&c.children[i].0, &c.children[i].1) {
                assert(cs[i as int] == (c.children@[i as int].0@, c.children@[i as int].1@));
                assert(first_marking(cs, i as int) == Some(i as int));
                return true;
            }
            i = i + 1;
        }
        false
    } else {
        let src = chars_of(source);
        let lines = split_lines(src.as_slice());
        if c.start_row < lines.len() {
            let l = lines[c.start_row].as_slice();
            contains_str(l, "public") || contains_str(l, "pub ") || contains_str(l, "pub(")
        } else {
            false
        }
    }
}

// ---------------------------------------------------------------------------
// Declarations of a file
// ---------------------------------------------------------------------------

/// Whether a capture spans a non-empty byte range inside the source.
pub open spec fn is_valid_capture(source: Seq<char>, c: CaptureNodeModel) -> bool {
    c.start_byte < c.end_byte && c.end_byte <= byte_len(source)
}

/// The dot-separated parts of a capture's name.
pub open spec fn capture_parts(c: CaptureNodeModel) -> Seq<Seq<char>> {
    split_seq(c.capture_name, seq!['.'])
}

/// Whether a capture names a declaration: its name is `<kind>.name...`.
pub open spec fn names_declaration(c: CaptureNodeModel) -> bool {
    capture_parts(c).len() >= 2 && capture_parts(c)[1] == "name"@
}

/// The declaration a naming capture stands for: its kind, its text as the
/// name, its rows, and whether it is public.
pub open spec fn declaration_node(language: Seq<char>, source: Seq<char>, c: CaptureNodeModel) -> AffectedNodeModel {
    AffectedNodeModel {
        node_type: capture_parts(c)[0],
        name: c.text,
        range: (c.start_row, c.end_row),
        is_public: declared_public(language, source, c),
        content: None,
        line_range: (c.start_row, c.end_row),
        change_type: None,
        additions: None,
        deletions: None,
    }
}

/// The declarations named by the captures, in order.
pub open spec fn capture_declarations(language: Seq<char>, source: Seq<char>, cs: Seq<CaptureNodeModel>) -> Seq<
    AffectedNodeModel,
>
    decreases cs.len(),
{
    if cs.len() == 0 {
        seq![]
    } else {
        let c = cs.last();
        capture_declarations(language, source, cs.drop_last()) + if is_valid_capture(source, c)
            && names_declaration(c) {
            seq![declaration_node(language, source, c)]
        } else {
            seq![]
        }
    }
}

/// The declarations named by the matches, match after match.
pub open spec fn match_declarations(language: Seq<char>, source: Seq<char>, ms: Seq<Seq<CaptureNodeModel>>) -> Seq<
    AffectedNodeModel,
>
    decreases ms.len(),
{
    if ms.len() == 0 {
        seq![]
    } else {
        match_declarations(language, source, ms.drop_last()) + capture_declarations(
            language,
            source,
            ms.last(),
        )
    }
}

/// A public declaration with the given kind, name and rows.
pub open spec fn placeholder(kind: Seq<char>, name: Seq<char>, from: usize, to: usize) -> AffectedNodeModel {
    AffectedNodeModel {
        node_type: kind,
        name,
        range: (from, to),
        is_public: true,
        content: None,
        line_range: (from, to),
        change_type: None,
        additions: None,
        deletions: None,
    }
}

/// The stand-in declarations reported for a language whose grammar is not
/// loaded.
pub open spec fn placeholder_declarations(language: Seq<char>) -> Seq<AffectedNodeModel> {
    if language == "rust"@ {
        seq![
            placeholder("function"@, "example_function"@, 10, 20),
            placeholder("struct"@, "ExampleStruct"@, 30, 50),
        ]
    } else if language == "java"@ {
        seq![
            placeholder("method"@, "exampleMethod"@, 5, 15),
            placeholder("class"@, "ExampleClass"@, 1, 20),
        ]
    } else {
        seq![]
    }
}

/// The declarations of a file: none for an empty source; the stand-ins
/// where the language's grammar is not loaded (no matches); otherwise those
/// the query's matches name.
pub open spec fn file_structure(
    language: Seq<char>,
    source: Seq<char>,
    ms: Option<Seq<Seq<CaptureNodeModel>>>,
) -> Seq<AffectedNodeModel> {
    if source.len() == 0 {
        seq![]
    } else {
        match ms {
            None => placeholder_declarations(language),
            Some(ms) => match_declarations(language, source, ms),
        }
    }
}

/// The visibility scan of every naming Rust capture ends (see `scan_ends`).
pub open spec fn scans_end(language: Seq<char>, source: Seq<char>, ms: Seq<Seq<CaptureNodeModel>>) -> bool {
    forall|i: int, j: int|
        0 <= i < ms.len() && 0 <= j < ms[i].len() && language == "rust"@ && is_valid_capture(
            source,
            #[trigger] ms[i][j],
        ) && names_declaration(ms[i][j]) ==> scan_ends(ms[i][j].children)
}

/// A node with the given fields and no content or change details.
fn plain_node(kind: &str, name: &str, from: usize, to: usize, public: bool) -> (res: AffectedNode)
    ensures
        res@ == (AffectedNodeModel {
            node_type: kind@,
            name: name@,
            range: (from, to),
            is_public: public,
            content: None,
            line_range: (from, to),
            change_type: None,
            additions: None,
            deletions: None,
        }),
{
    AffectedNode {
        node_type: kind.to_string(),
        name: name.to_string(),
        range: (from, to),
        is_public: public,
        content: None,
        line_range: (from, to),
        change_type: None,
        additions: None,
        deletions: None,
    }
}

/// Appends the declarations the captures of one match name.
fn push_capture_declarations(out: &mut Vec<AffectedNode>, language: &str, source: &str, source_len: usize, captures: &Vec<CaptureNode>)
    requires
        source_len == byte_len(source@),
        forall|j: int|
            0 <= j < captures@.len() && language@ == "rust"@ && is_valid_capture(
                source@,
                #[trigger] capture_views(captures@)[j],
            ) && names_declaration(capture_views(captures@)[j]) ==> scan_ends(
                capture_views(captures@)[j].children,
            ),
    ensures
        node_views(final(out)@) == node_views(old(out)@) + capture_declarations(
            language@,
            source@,
            capture_views(captures@),
        ),
{
    let ghost cs = capture_views(captures@);
    let ghost start = node_views(out@);
    let mut j: usize = 0;
    while j < captures.len()
        invariant
            j <= captures@.len(),
            cs == capture_views(captures@),
            source_len == byte_len(source@),
            forall|t: int|
                0 <= t < captures@.len() && language@ == "rust"@ && is_valid_capture(
                    source@,
                    #[trigger] cs[t],
                ) && names_declaration(cs[t]) ==> scan_ends(cs[t].children),
            node_views(out@) == start + capture_declarations(language@, source@, cs.take(j as int)),
        decreases captures.len() - j,
    {
        let c = &captures[j];
        assert(cs[j as int] == c@);
        assert(cs.take(j + 1).drop_last() =~= cs.take(j as int));
        if c.start_byte < c.end_byte && c.end_byte <= source_len {
            let name_chars = chars_of(c.capture_name.as_str());
            let parts = split_char(name_chars.as_slice(), '.');
            if parts.len() >= 2 && crate::text::chars_eq_str(parts[1].as_slice(), "name") {
                let public = is_declared_public(language, source, c);
                let node = AffectedNode {
                    node_type: to_string(&parts[0]),
                    name: c.text.clone(),
                    range: (c.start_row, c.end_row),
                    is_public: public,
                    content: None,
                    line_range: (c.start_row, c.end_row),
                    change_type: None,
                    additions: None,
                    deletions: None,
                };
                let ghost before = node_views(out@);
                let ghost nv = node@;
                assert(nv == declaration_node(language@, source@, c@));
                out.push(node);
                assert(node_views(out@) =~= before.push(nv));
            } else {
                assert(!names_declaration(c@));
            }
        }
        assert(node_views(out@) =~= start + capture_declarations(language@, source@, cs.take(j + 1)));
        j = j + 1;
    }
    assert(cs.take(j as int) =~= cs);
}

/// The declarations of a file (see `file_structure`), given its language,
/// its source and, where the language's grammar is loaded, the matches of
/// the language's query over it (empty where the query could not be made).
pub fn analyze_file_structure(language: &str, source: &str, query_matches: Option<&Vec<QueryMatch>>) -> (res: Vec<
    AffectedNode,
>)
    requires
        match query_matches {
            Some(ms) => scans_end(language@, source@, match_views(ms@)),
            None => true,
        },
    ensures
        node_views(res@) == file_structure(
            language@,
            source@,
            match query_matches {
                Some(ms) => Some(match_views(ms@)),
                None => None,
            },
        ),
{
    let src = chars_of(source);
    let mut out: Vec<AffectedNode> = Vec::new();
    if src.len() == 0 {
        assert(node_views(out@) =~= seq![]);
        return out;
    }
    match query_matches {
        None => {
            if crate::text::strs_eq(language, "rust") {
                out.push(plain_node("function", "example_function", 10, 20, true));
                out.push(plain_node("struct", "ExampleStruct", 30, 50, true));
            } else if crate::text::strs_eq(language, "java") {
                out.push(plain_node("method", "exampleMethod", 5, 15, true));
                out.push(plain_node("class", "ExampleClass", 1, 20, true));
            }
            assert(node_views(out@) =~= placeholder_declarations(language@));
            out
        },
        Some(ms) => {
            let ghost mv = match_views(ms@);
            let source_len = crate::text::chars_byte_len(src.as_slice());
            let mut i: usize = 0;
            while i < ms.len()
                invariant
                    i <= ms@.len(),
                    mv == match_views(ms@),
                    source_len == byte_len(source@),
                    scans_end(language@, source@, mv),
                    node_views(out@) == match_declarations(language@, source@, mv.take(i as int)),
                decreases ms.len() - i,
            {
                assert(mv[i as int] == capture_views(ms@[i as int].captures@));
                assert forall|j: int|
                    0 <= j < ms@[i as int].captures@.len() && language@ == "rust"@ && is_valid_capture(
                        source@,
                        #[trigger] capture_views(ms@[i as int].captures@)[j],
                    ) && names_declaration(capture_views(ms@[i as int].captures@)[j]) implies scan_ends(
                    capture_views(ms@[i as int].captures@)[j].children,
                ) by {
                    assert(mv[i as int][j] == capture_views(ms@[i as int].captures@)[j]);
                }
                push_capture_declarations(&mut out, language, source, source_len, &ms[i].captures);
                assert(mv.take(i + 1).drop_last() =~= mv.take(i as int));
                i = i + 1;
            }
            assert(mv.take(i as int) =~= mv);
            out
        },
    }
}

// ---------------------------------------------------------------------------
// Declarations touched by hunks
// ---------------------------------------------------------------------------

/// The last line of a hunk's new range: its start where it is empty.
pub open spec fn range_end(start: usize, count: usize) -> int {
    if count > 0 {
        start + count - 1
    } else {
        start as int
    }
}

/// Whether a node's range meets a hunk's new range.
pub open spec fn touches(n: AffectedNodeModel, h: DiffHunkModel) -> bool {
    n.range.0 <= range_end(h.new_range.start, h.new_range.count) && n.range.1 >= h.new_range.start
}

/// The nodes one hunk touches, in order.
pub open spec fn touched_by(ns: Seq<AffectedNodeModel>, h: DiffHunkModel) -> Seq<AffectedNodeModel>
    decreases ns.len(),
{
    if ns.len() == 0 {
        seq![]
    } else {
        touched_by(ns.drop_last(), h) + if touches(ns.last(), h) {
            seq![ns.last()]
        } else {
            seq![]
        }
    }
}

/// The nodes each hunk touches, hunk after hunk (a node touched by two
/// hunks appears twice).
pub open spec fn touched_nodes(ns: Seq<AffectedNodeModel>, hs: Seq<DiffHunkModel>) -> Seq<AffectedNodeModel>
    decreases hs.len(),
{
    if hs.len() == 0 {
        seq![]
    } else {
        touched_nodes(ns, hs.drop_last()) + touched_by(ns, hs.last())
    }
}

/// The kind of the stand-in block for a language.
pub open spec fn block_kind(language: Seq<char>) -> Seq<char> {
    if language == "rust"@ {
        "function"@
    } else if language == "java"@ {
        "method"@
    } else {
        "code_block"@
    }
}

/// The stand-in node for the hunk at position `i`.
pub open spec fn changed_block(language: Seq<char>, i: int, h: DiffHunkModel) -> AffectedNodeModel {
    AffectedNodeModel {
        node_type: block_kind(language),
        name: "changed_block_"@ + decimal((i + 1) as nat),
        range: (h.new_range.start, range_end(h.new_range.start, h.new_range.count) as usize),
        is_public: true,
        content: None,
        line_range: (h.new_range.start, range_end(h.new_range.start, h.new_range.count) as usize),
        change_type: None,
        additions: None,
        deletions: None,
    }
}

/// The nodes a file's hunks touch; where they touch none, one stand-in
/// block per hunk.
pub open spec fn affected_nodes_of(language: Seq<char>, ns: Seq<AffectedNodeModel>, hs: Seq<DiffHunkModel>) -> Seq<
    AffectedNodeModel,
> {
    if touched_nodes(ns, hs).len() > 0 {
        touched_nodes(ns, hs)
    } else {
        Seq::new(hs.len(), |i: int| changed_block(language, i, hs[i]))
    }
}

/// The nodes one hunk touches: each given node it touches is listed, and
/// each listed node is one of the given nodes and is touched by the hunk.
proof fn lemma_touched_by(ns: Seq<AffectedNodeModel>, h: DiffHunkModel)
    ensures
        forall|k: int| 0 <= k < ns.len() && touches(ns[k], h) ==> touched_by(ns, h).contains(#[trigger] ns[k]),
        forall|m: int|
            0 <= m < touched_by(ns, h).len() ==> ns.contains(#[trigger] touched_by(ns, h)[m]) && touches(
                touched_by(ns, h)[m],
                h,
            ),
    decreases ns.len(),
{
    if ns.len() > 0 {
        let init = ns.drop_last();
        lemma_touched_by(init, h);
        let t0 = touched_by(init, h);
        let t = touched_by(ns, h);
        assert forall|k: int| 0 <= k < ns.len() && touches(ns[k], h) implies t.contains(#[trigger] ns[k]) by {
            if k < ns.len() - 1 {
                assert(init[k] == ns[k]);
                assert(t0.contains(init[k]));
                let m = choose|m: int| 0 <= m < t0.len() && t0[m] == init[k];
                assert(t[m] == ns[k]);
            } else {
                assert(t[t.len() - 1] == ns.last());
            }
        }
        assert forall|m: int| 0 <= m < t.len() implies ns.contains(#[trigger] t[m]) && touches(t[m], h) by {
            if m < t0.len() {
                assert(t[m] == t0[m]);
                assert(init.contains(t0[m]));
                let k = choose|k: int| 0 <= k < init.len() && init[k] == t0[m];
                assert(ns[k] == init[k]);
            } else {
                assert(t[m] == ns.last());
                assert(ns[ns.len() - 1] == ns.last());
            }
        }
    }
}

/// The nodes the hunks touch: each given node some hunk touches is listed,
/// and each listed node is one of the given nodes and is touched by some
/// hunk.
proof fn lemma_touched_nodes(ns: Seq<AffectedNodeModel>, hs: Seq<DiffHunkModel>)
    ensures
        forall|k: int, j: int|
            0 <= k < ns.len() && 0 <= j < hs.len() && touches(#[trigger] ns[k], #[trigger] hs[j])
                ==> touched_nodes(ns, hs).contains(ns[k]),
        forall|m: int|
            0 <= m < touched_nodes(ns, hs).len() ==> ns.contains(#[trigger] touched_nodes(ns, hs)[m]) && exists|j: int|
                0 <= j < hs.len() && touches(touched_nodes(ns, hs)[m], #[trigger] hs[j]),
    decreases hs.len(),
{
    if hs.len() > 0 {
        let init = hs.drop_last();
        let h = hs.last();
        lemma_touched_nodes(ns, init);
        lemma_touched_by(ns, h);
        let a = touched_nodes(ns, init);
        let b = touched_by(ns, h);
        let t = touched_nodes(ns, hs);
        assert(t == a + b);
        assert forall|k: int, j: int|
            0 <= k < ns.len() && 0 <= j < hs.len() && touches(#[trigger] ns[k], #[trigger] hs[j]) implies t.contains(
            ns[k],
        ) by {
            if j < hs.len() - 1 {
                assert(init[j] == hs[j]);
                assert(a.contains(ns[k]));
                let m = choose|m: int| 0 <= m < a.len() && a[m] == ns[k];
                assert(t[m] == ns[k]);
            } else {
                assert(hs[j] == h);
                assert(b.contains(ns[k]));
                let m = choose|m: int| 0 <= m < b.len() && b[m] == ns[k];
                assert(t[a.len() + m] == ns[k]);
            }
        }
        assert forall|m: int| 0 <= m < t.len() implies ns.contains(#[trigger] t[m]) && exists|j: int|
            0 <= j < hs.len() && touches(t[m], #[trigger] hs[j]) by {
            if m < a.len() {
                assert(t[m] == a[m]);
                assert(ns.contains(a[m]));
                let j = choose|j: int| 0 <= j < init.len() && touches(a[m], #[trigger] init[j]);
                assert(hs[j] == init[j]);
            } else {
                assert(t[m] == b[m - a.len()]);
                assert(ns.contains(b[m - a.len()]));
                assert(hs[hs.len() - 1] == h);
            }
        }
    }
}

/// The new lines of a hunk meet a node's lines: the node starts no later
/// than the hunk's last new line (`start + count - 1`, or `start` for an
/// empty range) and ends no earlier than its first.
pub open spec fn meets_new_lines(n: AffectedNodeModel, h: DiffHunkModel) -> bool {
    n.range.0 + 1 <= h.new_range.start + h.new_range.count || (h.new_range.count == 0 && n.range.0
        <= h.new_range.start)
}

/// Law: a declaration is reported for a file's hunks exactly when its lines
/// overlap the new lines of some hunk, from `start` to `start + count - 1`
/// (the start line alone for an empty range). Every overlapping declaration
/// is reported, a declaration lying wholly inside a hunk among them; and
/// when any declaration overlaps, each reported node is a declaration that
/// overlaps some hunk.
pub proof fn law_overlapping_declarations_are_reported(
    language: Seq<char>,
    ns: Seq<AffectedNodeModel>,
    hs: Seq<DiffHunkModel>,
)
    ensures
        forall|k: int, j: int|
            0 <= k < ns.len() && 0 <= j < hs.len() && meets_new_lines(#[trigger] ns[k], #[trigger] hs[j])
                && ns[k].range.1 >= hs[j].new_range.start ==> affected_nodes_of(language, ns, hs).contains(ns[k]),
        (exists|k: int, j: int|
            0 <= k < ns.len() && 0 <= j < hs.len() && meets_new_lines(#[trigger] ns[k], #[trigger] hs[j])
                && ns[k].range.1 >= hs[j].new_range.start) ==> forall|m: int|
            0 <= m < affected_nodes_of(language, ns, hs).len() ==> ns.contains(
                #[trigger] affected_nodes_of(language, ns, hs)[m],
            ) && exists|j: int|
                0 <= j < hs.len() && meets_new_lines(affected_nodes_of(language, ns, hs)[m], #[trigger] hs[j])
                    && affected_nodes_of(language, ns, hs)[m].range.1 >= hs[j].new_range.start,
{
    lemma_touched_nodes(ns, hs);
    let t = touched_nodes(ns, hs);
    let r = affected_nodes_of(language, ns, hs);
    assert forall|n: AffectedNodeModel, h: DiffHunkModel|
        touches(n, h) <==> meets_new_lines(n, h) && n.range.1 >= h.new_range.start by {}
    assert forall|k: int, j: int|
        0 <= k < ns.len() && 0 <= j < hs.len() && meets_new_lines(#[trigger] ns[k], #[trigger] hs[j])
            && ns[k].range.1 >= hs[j].new_range.start implies r.contains(ns[k]) by {
        assert(touches(ns[k], hs[j]));
        assert(t.contains(ns[k]));
    }
    if exists|k: int, j: int|
        0 <= k < ns.len() && 0 <= j < hs.len() && meets_new_lines(#[trigger] ns[k], #[trigger] hs[j])
            && ns[k].range.1 >= hs[j].new_range.start {
        let (k, j) = choose|k: int, j: int|
            0 <= k < ns.len() && 0 <= j < hs.len() && meets_new_lines(#[trigger] ns[k], #[trigger] hs[j])
                && ns[k].range.1 >= hs[j].new_range.start;
        assert(touches(ns[k], hs[j]));
        assert(t.contains(ns[k]));
        assert(r == t);
    }
}

/// Every hunk's last line fits in a `usize`.
pub open spec fn hunk_ends_fit(hs: Seq<DiffHunkModel>) -> bool {
    forall|i: int| 0 <= i < hs.len() ==> range_end((#[trigger] hs[i]).new_range.start, hs[i].new_range.count) <= usize::MAX
}

/// A copy of optional lines.
fn copy_opt_lines(o: &Option<Vec<String>>) -> (res: Option<Vec<String>>)
    ensures
        crate::tree_sitter_analyzer::model::opt_lines_view(res) == crate::tree_sitter_analyzer::model::opt_lines_view(*o),
{
    match o {
        Some(v) => Some(copy_strings(v)),
        None => None,
    }
}

/// A copy of a node.
fn copy_node(n: &AffectedNode) -> (res: AffectedNode)
    ensures
        res@ == n@,
{
    AffectedNode {
        node_type: n.node_type.clone(),
        name: n.name.clone(),
        range: n.range,
        is_public: n.is_public,
        content: match &n.content {
            Some(c) => Some(c.clone()),
            None => None,
        },
        line_range: n.line_range,
        change_type: match &n.change_type {
            Some(c) => Some(c.clone()),
            None => None,
        },
        additions: copy_opt_lines(&n.additions),
        deletions: copy_opt_lines(&n.deletions),
    }
}

/// Appends the nodes one hunk touches.
fn push_touched(out: &mut Vec<AffectedNode>, nodes: &Vec<AffectedNode>, h: &DiffHunk)
    requires
        range_end(h@.new_range.start, h@.new_range.count) <= usize::MAX,
    ensures
        node_views(final(out)@) == node_views(old(out)@) + touched_by(node_views(nodes@), h@),
{
    let ghost ns = node_views(nodes@);
    let ghost start = node_views(out@);
    let hs = h.new_range.start;
    let he = if h.new_range.count > 0 {
        h.new_range.start + (h.new_range.count - 1)
    } else {
        h.new_range.start
    };
    let mut k: usize = 0;
    while k < nodes.len()
        invariant
            k <= nodes@.len(),
            ns == node_views(nodes@),
            hs == h@.new_range.start,
            he == range_end(h@.new_range.start, h@.new_range.count),
            node_views(out@) == start + touched_by(ns.take(k as int), h@),
        decreases nodes.len() - k,
    {
        assert(ns.take(k + 1).drop_last() =~= ns.take(k as int));
        assert(ns[k as int] == nodes@[k as int]@);
        let n = &nodes[k];
        if n.range.0 <= he && n.range.1 >= hs {
            let c = copy_node(n);
            let ghost before = node_views(out@);
            out.push(c);
            assert(node_views(out@) =~= before.push(ns[k as int]));
        }
        assert(node_views(out@) =~= start + touched_by(ns.take(k + 1), h@));
        k = k + 1;
    }
    assert(ns.take(k as int) =~= ns);
}

/// The nodes of a file that its hunks touch (see `affected_nodes_of`),
/// given all of the file's declarations.
pub fn find_affected_nodes(language: &str, all_nodes: &Vec<AffectedNode>, hunks: &Vec<DiffHunk>) -> (res: Vec<
    AffectedNode,
>)
    requires
        hunk_ends_fit(hunks@.map_values(|h: DiffHunk| h@)),
        hunks@.len() < usize::MAX,
    ensures
        node_views(res@) == affected_nodes_of(
            language@,
            node_views(all_nodes@),
            hunks@.map_values(|h: DiffHunk| h@),
        ),
{
    let ghost hv = hunks@.map_values(|h: DiffHunk| h@);
    let ghost ns = node_views(all_nodes@);
    let mut out: Vec<AffectedNode> = Vec::new();
    let mut i: usize = 0;
    while i < hunks.len()
        invariant
            i <= hunks@.len(),
            hv == hunks@.map_values(|h: DiffHunk| h@),
            ns == node_views(all_nodes@),
            hunk_ends_fit(hv),
            node_views(out@) == touched_nodes(ns, hv.take(i as int)),
        decreases hunks.len() - i,
    {
        assert(hv.take(i + 1).drop_last() =~= hv.take(i as int));
        assert(hv[i as int] == hunks@[i as int]@);
        push_touched(&mut out, all_nodes, &hunks[i]);
        i = i + 1;
    }
    assert(hv.take(i as int) =~= hv);
    if out.len() > 0 {
        return out;
    }
    let kind = if crate::text::strs_eq(language, "rust") {
        "function"
    } else if crate::text::strs_eq(language, "java") {
        "method"
    } else {
        "code_block"
    };
    assert(kind@ == block_kind(language@));
    let mut j: usize = 0;
    while j < hunks.len()
        invariant
            j <= hunks@.len(),
            hunks@.len() < usize::MAX,
            hv == hunks@.map_values(|h: DiffHunk| h@),
            hunk_ends_fit(hv),
            kind@ == block_kind(language@),
            node_views(out@) == Seq::new(j as nat, |t: int| changed_block(language@, t, hv[t])),
        decreases hunks.len() - j,
    {
        let h = &hunks[j];
        assert(hv[j as int] == h@);
        let start = h.new_range.start;
        let end = if h.new_range.count > 0 {
            h.new_range.start + (h.new_range.count - 1)
        } else {
            h.new_range.start
        };
        let mut name: Vec<char> = Vec::new();
        extend_str(&mut name, "changed_block_");
        push_decimal(&mut name, j + 1);
        let node = AffectedNode {
            node_type: kind.to_string(),
            name: to_string(&name),
            range: (start, end),
            is_public: true,
            content: None,
            line_range: (start, end),
            change_type: None,
            additions: None,
            deletions: None,
        };
        let ghost before = node_views(out@);
        assert(node@ == changed_block(language@, j as int, hv[j as int]));
        out.push(node);
        assert(node_views(out@) =~= before.push(changed_block(language@, j as int, hv[j as int])));
        assert(node_views(out@) =~= Seq::new((j + 1) as nat, |t: int| changed_block(language@, t, hv[t])));
        j = j + 1;
    }
    assert(node_views(out@) =~= affected_nodes_of(language@, ns, hv));
    out
}

// ---------------------------------------------------------------------------
// Change statistics
// ---------------------------------------------------------------------------

/// The category under which a declaration is counted: 0 function, 1 type
/// (class or struct), 2 method, 3 interface (interface or trait), 4 other.
pub open spec fn declaration_kind(n: AffectedNodeModel) -> u8 {
    let t = n.node_type;
    if t == "function"@ {
        0
    } else if t == "class"@ || t == "struct"@ {
        1
    } else if t == "method"@ {
        2
    } else if t == "interface"@ || t == "trait"@ {
        3
    } else {
        4
    }
}

/// The number of declarations of category `k`.
pub open spec fn kind_count(ns: Seq<AffectedNodeModel>, k: u8) -> nat
    decreases ns.len(),
{
    if ns.len() == 0 {
        0
    } else {
        kind_count(ns.drop_last(), k) + if declaration_kind(ns.last()) == k {
            1nat
        } else {
            0nat
        }
    }
}

/// A category never counts more declarations than there are.
proof fn lemma_kind_count_bound(ns: Seq<AffectedNodeModel>, k: u8)
    ensures
        kind_count(ns, k) <= ns.len(),
    decreases ns.len(),
{
    if ns.len() > 0 {
        lemma_kind_count_bound(ns.drop_last(), k);
    }
}

/// The change pattern the counts suggest: functions without types are a
/// feature, types without functions a model change, methods without
/// functions a behaviour change, no declarations at all a configuration
/// change, anything else mixed.
pub open spec fn counted_pattern(f: nat, t: nat, m: nat, total: nat) -> ChangePatternModel {
    if f > 0 && t == 0 {
        ChangePatternModel::FeatureImplementation
    } else if t > 0 && f == 0 {
        ChangePatternModel::ModelChange
    } else if m > 0 && f == 0 {
        ChangePatternModel::BehaviorChange
    } else if total == 0 {
        ChangePatternModel::ConfigurationChange
    } else {
        ChangePatternModel::MixedChange
    }
}

/// The scope: major beyond five files or twenty declarations, moderate
/// beyond two files or ten declarations, minor otherwise.
pub open spec fn counted_scope(files: nat, total: nat) -> ChangeScope {
    if files > 5 || total > 20 {
        ChangeScope::Major
    } else if files > 2 || total > 10 {
        ChangeScope::Moderate
    } else {
        ChangeScope::Minor
    }
}

/// The statistics of the declarations of the analysed files.
pub open spec fn change_statistics(fas: Seq<FileAnalysisModel>) -> ChangeAnalysisModel {
    let ns = all_nodes(fas);
    ChangeAnalysisModel {
        function_changes: kind_count(ns, 0),
        type_changes: kind_count(ns, 1),
        method_changes: kind_count(ns, 2),
        interface_changes: kind_count(ns, 3),
        other_changes: kind_count(ns, 4),
        change_pattern: counted_pattern(kind_count(ns, 0), kind_count(ns, 1), kind_count(ns, 2), ns.len()),
        change_scope: counted_scope(fas.len(), ns.len()),
    }
}

/// The category of a declaration (see `declaration_kind`).
fn kind_of(n: &AffectedNode) -> (res: u8)
    ensures
        res == declaration_kind(n@),
{
    let t = &n.node_type;
    if string_eq_str(t, "function") {
        0
    } else if string_eq_str(t, "class") || string_eq_str(t, "struct") {
        1
    } else if string_eq_str(t, "method") {
        2
    } else if string_eq_str(t, "interface") || string_eq_str(t, "trait") {
        3
    } else {
        4
    }
}

/// Counts the declarations of the analysed files by category and derives
/// the change pattern and scope (see `change_statistics`).
pub fn analyze_changes(file_mappings: &Vec<FileAnalysis>) -> (res: ChangeAnalysis)
    requires
        all_nodes(analysis_views(file_mappings@)).len() <= usize::MAX,
    ensures
        res@ == change_statistics(analysis_views(file_mappings@)),
{
    let ghost fas = analysis_views(file_mappings@);
    let mut f: usize = 0;
    let mut t: usize = 0;
    let mut m: usize = 0;
    let mut it: usize = 0;
    let mut o: usize = 0;
    let mut total: usize = 0;
    let mut i: usize = 0;
    while i < file_mappings.len()
        invariant
            i <= file_mappings@.len(),
            fas == analysis_views(file_mappings@),
            all_nodes(fas).len() <= usize::MAX,
            total == all_nodes(fas.take(i as int)).len(),
            f == kind_count(all_nodes(fas.take(i as int)), 0),
            t == kind_count(all_nodes(fas.take(i as int)), 1),
            m == kind_count(all_nodes(fas.take(i as int)), 2),
            it == kind_count(all_nodes(fas.take(i as int)), 3),
            o == kind_count(all_nodes(fas.take(i as int)), 4),
        decreases file_mappings.len() - i,
    {
        let nodes = &file_mappings[i].affected_nodes;
        let ghost base = all_nodes(fas.take(i as int));
        let ghost nv = node_views(nodes@);
        proof {
            assert(fas[i as int].affected_nodes == nv);
            crate::tree_sitter_analyzer::diff_analysis::lemma_all_nodes_take(fas, i as int);
        }
        let mut j: usize = 0;
        while j < nodes.len()
            invariant
                j <= nodes@.len(),
                nv == node_views(nodes@),
                (base + nv).len() <= usize::MAX,
                total == (base + nv.take(j as int)).len(),
                f == kind_count(base + nv.take(j as int), 0),
                t == kind_count(base + nv.take(j as int), 1),
                m == kind_count(base + nv.take(j as int), 2),
                it == kind_count(base + nv.take(j as int), 3),
                o == kind_count(base + nv.take(j as int), 4),
            decreases nodes.len() - j,
        {
            let k = kind_of(&nodes[j]);
            proof {
                assert((base + nv.take(j + 1)).drop_last() =~= base + nv.take(j as int));
                assert((base + nv.take(j + 1)).last() == nodes@[j as int]@);
                lemma_kind_count_bound(base + nv.take(j as int), 0);
                lemma_kind_count_bound(base + nv.take(j as int), 1);
                lemma_kind_count_bound(base + nv.take(j as int), 2);
                lemma_kind_count_bound(base + nv.take(j as int), 3);
                lemma_kind_count_bound(base + nv.take(j as int), 4);
            }
            if k == 0 {
                f = f + 1;
            } else if k == 1 {
                t = t + 1;
            } else if k == 2 {
                m = m + 1;
            } else if k == 3 {
                it = it + 1;
            } else {
                o = o + 1;
            }
            total = total + 1;
            j = j + 1;
        }
        assert(nv.take(j as int) =~= nv);
        i = i + 1;
    }
    assert(fas.take(i as int) =~= fas);
    let pattern = if f > 0 && t == 0 {
        ChangePattern::FeatureImplementation
    } else if t > 0 && f == 0 {
        ChangePattern::ModelChange
    } else if m > 0 && f == 0 {
        ChangePattern::BehaviorChange
    } else if total == 0 {
        ChangePattern::ConfigurationChange
    } else {
        ChangePattern::MixedChange
    };
    let n = file_mappings.len();
    let scope = if n > 5 || total > 20 {
        ChangeScope::Major
    } else if n > 2 || total > 10 {
        ChangeScope::Moderate
    } else {
        ChangeScope::Minor
    };
    ChangeAnalysis {
        function_changes: f,
        type_changes: t,
        method_changes: m,
        interface_changes: it,
        other_changes: o,
        change_pattern: pattern,
        change_scope: scope,
    }
}

/// The five categories together count every declaration exactly once.
proof fn lemma_kind_counts_sum(ns: Seq<AffectedNodeModel>)
    ensures
        kind_count(ns, 0) + kind_count(ns, 1) + kind_count(ns, 2) + kind_count(ns, 3) + kind_count(ns, 4)
            == ns.len(),
    decreases ns.len(),
{
    if ns.len() > 0 {
        lemma_kind_counts_sum(ns.drop_last());
    }
}

/// Every declaration of the analysed files is counted in exactly one of
/// the five categories of the change statistics.
pub proof fn law_statistics_count_each_declaration_once(fas: Seq<FileAnalysisModel>)
    ensures
        change_statistics(fas).function_changes + change_statistics(fas).type_changes
            + change_statistics(fas).method_changes + change_statistics(fas).interface_changes
            + change_statistics(fas).other_changes == all_nodes(fas).len(),
{
    lemma_kind_counts_sum(all_nodes(fas));
}

// ---------------------------------------------------------------------------
// Language of a file
// ---------------------------------------------------------------------------

/// The language of a file extension, or the error for an unsupported one.
pub open spec fn extension_language_or_error(e: Seq<char>) -> Result<Seq<char>, Seq<char>> {
    if e == "rs"@ {
        Ok("rust"@)
    } else if e == "js"@ || e == "jsx"@ || e == "ts"@ || e == "tsx"@ {
        Ok("javascript"@)
    } else if e == "py"@ {
        Ok("python"@)
    } else if e == "java"@ {
        Ok("java"@)
    } else if e == "c"@ || e == "h"@ {
        Ok("c"@)
    } else if e == "cpp"@ || e == "cc"@ || e == "hpp"@ {
        Ok("cpp"@)
    } else if e == "go"@ {
        Ok("go"@)
    } else {
        Err("不支持的文件类型: ."@ + e)
    }
}

/// The language of a file by its extension (compared as written); a file
/// without an extension, or with an unsupported one, is an error.
pub fn detect_language(path: &str) -> (res: Result<String, TreeSitterError>)
    ensures
        match path_extension_of(path@) {
            None => res matches Err(TreeSitterError::UnsupportedLanguage(m)) && m@ == "无法检测文件扩展名"@,
            Some(e) => match extension_language_or_error(e) {
                Ok(l) => res matches Ok(r) && r@ == l,
                Err(m) => res matches Err(TreeSitterError::UnsupportedLanguage(r)) && r@ == m,
            },
        },
{
    let e = match path_extension(path) {
        Some(e) => e,
        None => {
            return Err(TreeSitterError::UnsupportedLanguage(String::from_str("无法检测文件扩展名")));
        },
    };
    if string_eq_str(&e, "rs") {
        Ok(String::from_str("rust"))
    } else if string_eq_str(&e, "js") || string_eq_str(&e, "jsx") || string_eq_str(&e, "ts")
        || string_eq_str(&e, "tsx") {
        Ok(String::from_str("javascript"))
    } else if string_eq_str(&e, "py") {
        Ok(String::from_str("python"))
    } else if string_eq_str(&e, "java") {
        Ok(String::from_str("java"))
    } else if string_eq_str(&e, "c") || string_eq_str(&e, "h") {
        Ok(String::from_str("c"))
    } else if string_eq_str(&e, "cpp") || string_eq_str(&e, "cc") || string_eq_str(&e, "hpp") {
        Ok(String::from_str("cpp"))
    } else if string_eq_str(&e, "go") {
        Ok(String::from_str("go"))
    } else {
        let mut v: Vec<char> = Vec::new();
        extend_str(&mut v, "不支持的文件类型: .");
        crate::text::extend_string(&mut v, &e);
        Err(TreeSitterError::UnsupportedLanguage(to_string(&v)))
    }
}

} // verus!
