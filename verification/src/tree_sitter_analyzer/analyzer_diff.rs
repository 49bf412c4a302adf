//! The analyzer's own reading of `git diff` output.
//!
//! Unlike the reader of `parse_utils`, this one keeps one hunk open at a
//! time: a hunk is handed to the current file when the next hunk header, the
//! next `diff --git` header or the end of the text is reached, so each hunk
//! goes to the file under whose header it stands.

use vstd::prelude::*;
use crate::errors::TreeSitterError;
use crate::text::{
    chars_of, find_first, first_occurrence_from, is_prefix_of, lines_of, slice_chars, split_char,
    split_lines, split_seq, starts_with, starts_with_char, strip_leading_char, strip_prefixes,
    string_views, to_string, views,
};
use crate::tree_sitter_analyzer::model::{
    file_views, hunk_views, ChangeType, ChangedFile, ChangedFileModel, DiffHunk, DiffHunkModel,
    GitDiff, GitDiffModel, HunkRange,
};
use crate::tree_sitter_analyzer::parse_utils::{
    diff_fold, diff_step, fresh_file_model, is_content_line, opt_file_view, parse_range, parsed_diff, range_model,
    DiffParseState,
};
use crate::tree_sitter_analyzer::simple_diff::same_entry;

verus! {

/// The hunk range of a range text such as `1,5` (see `range_model`).
pub open spec fn hunk_range_model(r: Seq<char>) -> HunkRange {
    HunkRange { start: range_model(r).0 as usize, count: range_model(r).1 as usize }
}

/// Parses a hunk range such as `1,5`: an unparsable start or count is 0 and
/// a missing count is 1.
pub fn parse_hunk_range(range_str: &str) -> (res: HunkRange)
    ensures
        res == hunk_range_model(range_str@),
{
    let r = chars_of(range_str);
    let (start, count) = parse_range(r.as_slice());
    HunkRange { start, count }
}

/// The hunk that a header line `@@ -a,b +c,d @@` opens: the text between
/// the leading `@@ ` and the first ` @@`, split at spaces, must have at
/// least two parts, the old and the new range.
pub open spec fn header_hunk(line: Seq<char>) -> Option<DiffHunkModel> {
    let pos = first_occurrence_from(line, " @@"@, 0);
    if pos < 0 {
        None
    } else {
        let parts = split_seq(line.subrange(3, pos), seq![' ']);
        if parts.len() >= 2 {
            Some(
                DiffHunkModel {
                    old_range: hunk_range_model(strip_prefixes(parts[0], seq!['-'])),
                    new_range: hunk_range_model(strip_prefixes(parts[1], seq!['+'])),
                    lines: seq![],
                },
            )
        } else {
            None
        }
    }
}

/// The reader's state between two lines: the completed files, the file being
/// read and the open hunk.
pub struct HunkReadState {
    pub files: Seq<ChangedFileModel>,
    pub current: Option<ChangedFileModel>,
    pub hunk: Option<DiffHunkModel>,
}

/// The current file with the open hunk handed to it, if both exist.
pub open spec fn with_open_hunk(current: Option<ChangedFileModel>, hunk: Option<DiffHunkModel>) -> Option<
    ChangedFileModel,
> {
    match (current, hunk) {
        (Some(f), Some(h)) => Some(ChangedFileModel { hunks: f.hunks.push(h), ..f }),
        _ => current,
    }
}

/// The reader's state after one more line.
pub open spec fn read_step(st: HunkReadState, line: Seq<char>) -> HunkReadState {
    if is_prefix_of("diff --git "@, line) {
        HunkReadState {
            files: match with_open_hunk(st.current, st.hunk) {
                Some(f) => st.files.push(f),
                None => st.files,
            },
            current: Some(fresh_file_model()),
            hunk: None,
        }
    } else if is_prefix_of("--- "@, line) || is_prefix_of("+++ "@, line) {
        if is_prefix_of("+++ b/"@, line) && line.len() > 6 {
            HunkReadState {
                current: match st.current {
                    Some(f) => Some(ChangedFileModel { path: line.subrange(6, line.len() as int), ..f }),
                    None => None,
                },
                ..st
            }
        } else {
            st
        }
    } else if is_prefix_of("new file mode "@, line) {
        HunkReadState {
            current: match st.current {
                Some(f) => Some(ChangedFileModel { change_type: ChangeType::Added, ..f }),
                None => None,
            },
            ..st
        }
    } else if is_prefix_of("deleted file mode "@, line) {
        HunkReadState {
            current: match st.current {
                Some(f) => Some(ChangedFileModel { change_type: ChangeType::Deleted, ..f }),
                None => None,
            },
            ..st
        }
    } else if is_prefix_of("@@ "@, line) {
        HunkReadState {
            files: st.files,
            current: with_open_hunk(st.current, st.hunk),
            hunk: header_hunk(line),
        }
    } else if is_content_line(line) {
        HunkReadState {
            hunk: match st.hunk {
                Some(h) => Some(DiffHunkModel { lines: h.lines.push(line), ..h }),
                None => None,
            },
            ..st
        }
    } else {
        st
    }
}

/// The reader's state after a sequence of lines.
pub open spec fn read_fold(lines: Seq<Seq<char>>) -> HunkReadState
    decreases lines.len(),
{
    if lines.len() == 0 {
        HunkReadState { files: seq![], current: None, hunk: None }
    } else {
        read_step(read_fold(lines.drop_last()), lines.last())
    }
}

/// The diff read from a text: at the end the open hunk goes to the current
/// file, and the current file joins the completed ones.
pub open spec fn read_diff(text: Seq<char>) -> GitDiffModel {
    let st = read_fold(lines_of(text));
    GitDiffModel {
        changed_files: match with_open_hunk(st.current, st.hunk) {
            Some(f) => st.files.push(f),
            None => st.files,
        },
        metadata: None,
    }
}

/// A text the reader accepts: no line starts with `@@ @@` (the reader
/// cannot take the ranges of such a header from between its two markers).
pub open spec fn readable_diff(text: Seq<char>) -> bool {
    forall|i: int| 0 <= i < lines_of(text).len() ==> !is_prefix_of("@@ @@"@, #[trigger] lines_of(text)[i])
}

/// The view of an optional hunk.
pub open spec fn opt_hunk_view(o: Option<DiffHunk>) -> Option<DiffHunkModel> {
    match o {
        Some(h) => Some(h@),
        None => None,
    }
}

/// Reads the hunk a header line opens.
fn read_header_hunk(line: &[char]) -> (res: Option<DiffHunk>)
    requires
        is_prefix_of("@@ "@, line@),
        !is_prefix_of("@@ @@"@, line@),
    ensures
        opt_hunk_view(res) == header_hunk(line@),
{
    let marker = chars_of(" @@");
    match find_first(line, marker.as_slice()) {
        Some(pos) => {
            proof {
                reveal_strlit(" @@");
                reveal_strlit("@@ ");
                reveal_strlit("@@ @@");
                crate::text::lemma_first_occurrence_bounds(line@, " @@"@, 0);
                assert(crate::text::occurs_at(line@, " @@"@, pos as int));
                if pos < 3 {
                    assert("@@ "@ =~= seq!['@', '@', ' ']);
                    assert(line@.subrange(0, 3) == "@@ "@);
                    assert(line@.subrange(0, 3)[0] == line@[0]);
                    assert(line@.subrange(0, 3)[1] == line@[1]);
                    assert(line@.subrange(0, 3)[2] == line@[2]);
                    assert(line@[0] == '@');
                    assert(line@[1] == '@');
                    assert(line@[2] == ' ');
                    assert(" @@"@ =~= seq![' ', '@', '@']);
                    assert(line@.subrange(pos as int, pos + 3) == " @@"@);
                    assert(line@.subrange(pos as int, pos + 3)[0] == line@[pos as int]);
                    assert(line@[pos as int] == ' ');
                    assert(pos == 2);
                    assert(line@.subrange(2, 5)[1] == line@[3]);
                    assert(line@.subrange(2, 5)[2] == line@[4]);
                    assert(line@[3] == '@');
                    assert(line@[4] == '@');
                    assert("@@ @@"@ =~= seq!['@', '@', ' ', '@', '@']);
                    assert(line@.subrange(0, 5) =~= "@@ @@"@);
                }
            }
            let header = slice_chars(line, 3, pos);
            let parts = split_char(header.as_slice(), ' ');
            if parts.len() >= 2 {
                assert(views(parts@)[0] == parts@[0]@);
                assert(views(parts@)[1] == parts@[1]@);
                let old_str = strip_leading_char(parts[0].as_slice(), '-');
                let new_str = strip_leading_char(parts[1].as_slice(), '+');
                let old_range = parse_range(old_str.as_slice());
                let new_range = parse_range(new_str.as_slice());
                let h = DiffHunk {
                    old_range: HunkRange { start: old_range.0, count: old_range.1 },
                    new_range: HunkRange { start: new_range.0, count: new_range.1 },
                    lines: Vec::new(),
                };
                assert(h@.lines =~= Seq::<Seq<char>>::empty());
                Some(h)
            } else {
                None
            }
        },
        None => None,
    }
}

/// Hands the open hunk to the current file, if both exist.
fn hand_over(current: Option<ChangedFile>, hunk: Option<DiffHunk>) -> (res: Option<ChangedFile>)
    ensures
        opt_file_view(res) == with_open_hunk(opt_file_view(current), opt_hunk_view(hunk)),
{
    match current {
        Some(mut f) => match hunk {
            Some(h) => {
                let ghost f0 = f@;
                let ghost h0 = h@;
                f.hunks.push(h);
                assert(f@.hunks =~= f0.hunks.push(h0));
                Some(f)
            },
            None => Some(f),
        },
        None => None,
    }
}

/// Parses Git diff output into a `GitDiff` (see `read_diff`): each
/// `diff --git` header hands the open hunk to the current file and opens a
/// new file entry (modified unless a `new file mode` or `deleted file mode`
/// line follows); a `+++ b/` line names it; an `@@` header hands the open
/// hunk to the current file and opens the next; `+`, `-` and ` ` lines fill
/// the open hunk. The result has no metadata.
pub fn parse_git_diff_text(diff_text: &str) -> (res: Result<GitDiff, TreeSitterError>)
    requires
        readable_diff(diff_text@),
    ensures
        res matches Ok(d) && d@ == read_diff(diff_text@),
{
    let text = chars_of(diff_text);
    let lines = split_lines(text.as_slice());
    let mut files: Vec<ChangedFile> = Vec::new();
    let mut current: Option<ChangedFile> = None;
    let mut hunk: Option<DiffHunk> = None;
    let mut i: usize = 0;
    proof {
        assert(views(lines@).take(0) =~= Seq::<Seq<char>>::empty());
        assert(file_views(files@) =~= Seq::<ChangedFileModel>::empty());
    }
    while i < lines.len()
        invariant
            i <= lines@.len(),
            views(lines@) == lines_of(diff_text@),
            readable_diff(diff_text@),
            read_fold(views(lines@).take(i as int)) == (HunkReadState {
                files: file_views(files@),
                current: opt_file_view(current),
                hunk: opt_hunk_view(hunk),
            }),
        decreases lines.len() - i,
    {
        let line = lines[i].as_slice();
        let ghost st = read_fold(views(lines@).take(i as int));
        proof {
            assert(views(lines@).take(i + 1).drop_last() =~= views(lines@).take(i as int));
            assert(views(lines@).take(i + 1).last() == line@);
            assert(views(lines@)[i as int] == line@);
        }
        if starts_with(line, "diff --git ") {
            let open = hunk;
            let prev = hand_over(current, open);
            hunk = None;
            match prev {
                Some(f) => {
                    files.push(f);
                },
                None => {},
            }
            let fresh = ChangedFile {
                path: String::new(),
                change_type: ChangeType::Modified,
                hunks: Vec::new(),
                file_mode_change: None,
            };
            assert(fresh@.hunks =~= Seq::<DiffHunkModel>::empty());
            assert(fresh@.path =~= Seq::<char>::empty());
            current = Some(fresh);
            proof {
                assert(opt_file_view(current) =~= Some(fresh_file_model()));
                assert(file_views(files@) =~= match with_open_hunk(st.current, st.hunk) {
                    Some(f) => st.files.push(f),
                    None => st.files,
                });
            }
        } else if starts_with(line, "--- ") || starts_with(line, "+++ ") {
            if starts_with(line, "+++ b/") && line.len() > 6 {
                let prev = current;
                match prev {
                    Some(mut f) => {
                        let p = slice_chars(line, 6, line.len());
                        f.path = to_string(&p);
                        current = Some(f);
                    },
                    None => {
                        current = None;
                    },
                }
            }
        } else if starts_with(line, "new file mode ") {
            let prev = current;
            match prev {
                Some(mut f) => {
                    f.change_type = ChangeType::Added;
                    current = Some(f);
                },
                None => {
                    current = None;
                },
            }
        } else if starts_with(line, "deleted file mode ") {
            let prev = current;
            match prev {
                Some(mut f) => {
                    f.change_type = ChangeType::Deleted;
                    current = Some(f);
                },
                None => {
                    current = None;
                },
            }
        } else if starts_with(line, "@@ ") {
            let prev = current;
            let open = hunk;
            current = hand_over(prev, open);
            hunk = read_header_hunk(line);
        } else if starts_with_char(line, '+') || starts_with_char(line, '-') || starts_with_char(
            line,
            ' ',
        ) {
            let open = hunk;
            match open {
                Some(mut h) => {
                    let ghost h0 = h@;
                    h.lines.push(to_string(&lines[i]));
                    assert(h@.lines =~= h0.lines.push(line@));
                    hunk = Some(h);
                },
                None => {
                    hunk = None;
                },
            }
        }
        i = i + 1;
    }
    proof {
        assert(views(lines@).take(i as int) =~= views(lines@));
    }
    let last = hand_over(current, hunk);
    match last {
        Some(f) => {
            files.push(f);
        },
        None => {},
    }
    let d = GitDiff { changed_files: files, metadata: None };
    proof {
        let st = read_fold(lines_of(diff_text@));
        assert(d@.changed_files =~= match with_open_hunk(st.current, st.hunk) {
            Some(f) => st.files.push(f),
            None => st.files,
        });
    }
    Ok(d)
}

/// A `GitDiff` of a text, by the reader of `parse_utils` (see
/// `parsed_diff`); were that reader to fail, the reduced reader of
/// `simple_diff` would be used.
pub fn create_simple_git_diff(diff_text: &str) -> (res: GitDiff)
    ensures
        res@ == parsed_diff(diff_text@),
{
    match crate::tree_sitter_analyzer::parse_utils::parse_git_diff_text(diff_text) {
        Ok(git_diff) => git_diff,
        Err(_) => crate::tree_sitter_analyzer::simple_diff::parse_simple_diff(diff_text),
    }
}

/// The analyzer's reader and the full parser have read the same files so
/// far, each with the same path and kind of change.
pub open spec fn readers_agree(r: HunkReadState, p: DiffParseState) -> bool {
    &&& r.files.len() == p.files.len()
    &&& forall|i: int| 0 <= i < r.files.len() ==> same_entry(#[trigger] r.files[i], p.files[i])
    &&& match (r.current, p.current) {
        (Some(a), Some(b)) => same_entry(a, b),
        (None, None) => true,
        _ => false,
    }
}

/// A line with a prefix starts with the prefix's first character.
proof fn lemma_prefix_head(p: Seq<char>, l: Seq<char>)
    requires
        p.len() > 0,
        is_prefix_of(p, l),
    ensures
        l[0] == p[0],
{
    assert(l.subrange(0, p.len() as int)[0] == l[0]);
}

/// One more line keeps the two readers in agreement.
proof fn lemma_read_step_agrees(r: HunkReadState, p: DiffParseState, line: Seq<char>)
    requires
        readers_agree(r, p),
    ensures
        readers_agree(read_step(r, line), diff_step(p, line)),
{
    reveal_strlit("diff --git ");
    reveal_strlit("--- ");
    reveal_strlit("+++ ");
    reveal_strlit("+++ b/");
    reveal_strlit("new file mode ");
    reveal_strlit("deleted file mode ");
    reveal_strlit("@@ ");
    let r2 = read_step(r, line);
    let p2 = diff_step(p, line);
    let diff = is_prefix_of("diff --git "@, line);
    let dash = is_prefix_of("--- "@, line);
    let plus = is_prefix_of("+++ "@, line);
    let plus_b = is_prefix_of("+++ b/"@, line);
    let newf = is_prefix_of("new file mode "@, line);
    let delf = is_prefix_of("deleted file mode "@, line);
    if diff {
        lemma_prefix_head("diff --git "@, line);
    }
    if dash {
        lemma_prefix_head("--- "@, line);
    }
    if plus {
        lemma_prefix_head("+++ "@, line);
    }
    if plus_b {
        lemma_prefix_head("+++ b/"@, line);
        assert forall|k: int| 0 <= k < 4 implies #[trigger] line.subrange(0, 4)[k] == "+++ "@[k] by {
            assert(line.subrange(0, 4)[k] == line.subrange(0, 6)[k]);
            assert("+++ b/"@[k] == "+++ "@[k]);
        }
        assert(line.subrange(0, 4) =~= "+++ "@);
        assert(plus);
    }
    if newf {
        lemma_prefix_head("new file mode "@, line);
    }
    if delf {
        lemma_prefix_head("deleted file mode "@, line);
    }
    if diff {
        assert forall|i: int| 0 <= i < r2.files.len() implies same_entry(#[trigger] r2.files[i], p2.files[i]) by {
            if i < r.files.len() {
                assert(same_entry(r.files[i], p.files[i]));
            }
        }
    } else {
        assert(r2.files == r.files && p2.files == p.files);
    }
}

/// The two readers agree after any sequence of lines.
proof fn lemma_read_fold_agrees(lines: Seq<Seq<char>>)
    ensures
        readers_agree(read_fold(lines), diff_fold(lines)),
    decreases lines.len(),
{
    if lines.len() > 0 {
        lemma_read_fold_agrees(lines.drop_last());
        lemma_read_step_agrees(read_fold(lines.drop_last()), diff_fold(lines.drop_last()), lines.last());
    }
}

/// Law: the analyzer's reader lists the same files as the full diff parser
/// (`parsed_diff`), in the same order, each with the same path and kind of
/// change: a header followed by `new file mode` is read as added, by
/// `deleted file mode` as deleted.
pub proof fn law_reader_lists_the_parsed_files(text: Seq<char>)
    ensures
        read_diff(text).changed_files.len() == parsed_diff(text).changed_files.len(),
        forall|i: int|
            0 <= i < read_diff(text).changed_files.len() ==> same_entry(
                #[trigger] read_diff(text).changed_files[i],
                parsed_diff(text).changed_files[i],
            ),
{
    let lines = lines_of(text);
    lemma_read_fold_agrees(lines);
    let r = read_fold(lines);
    let p = diff_fold(lines);
    let a = read_diff(text).changed_files;
    let b = parsed_diff(text).changed_files;
    assert forall|i: int| 0 <= i < a.len() implies same_entry(#[trigger] a[i], b[i]) by {
        if i < r.files.len() {
            assert(same_entry(r.files[i], p.files[i]));
        }
    }
}

} // verus!
