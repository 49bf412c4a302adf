//! Parsing of `git diff` output into the diff model.

use vstd::prelude::*;
use vstd::string::StringExecFns;
use crate::tree_sitter_analyzer::simple_diff::{extension_language, language_of_extension};
use crate::text::{
    lowercase_of, opt_string_view, path_extension, path_extension_of, to_lowercase,
    chars_of, is_prefix_of, lines_of, parse_bounded, parse_usize, slice_chars, split_char,
    split_lines, split_seq, split_str, split_words, starts_with, starts_with_char,
    strip_leading_char, strip_prefixes, strip_prefixes_str, to_string, trim_chars, trim_seq, views,
    words_of, string_views,
};
use crate::tree_sitter_analyzer::model::{
    hunk_views, file_views, ChangeType, ChangedFile, ChangedFileModel, DiffHunk,
    DiffHunkModel, GitDiff, GitDiffModel, HunkRange,
};

verus! {

/// The state of the diff parser between two lines: the files completed so
/// far (each with its hunks), the file being read, and the hunks read since
/// its header.
pub struct DiffParseState {
    pub files: Seq<ChangedFileModel>,
    pub current: Option<ChangedFileModel>,
    pub hunks: Seq<DiffHunkModel>,
}

/// The state before the first line.
pub open spec fn initial_parse_state() -> DiffParseState {
    DiffParseState { files: seq![], current: None, hunks: seq![] }
}

/// A file entry just opened by a `diff --git` header.
pub open spec fn fresh_file_model() -> ChangedFileModel {
    ChangedFileModel {
        path: seq![],
        change_type: ChangeType::Modified,
        hunks: seq![],
        file_mode_change: None,
    }
}

/// The `(start, count)` of a range such as `1,5`: an unparsable start is 0,
/// an unparsable count is 0 and a missing count is 1.
pub open spec fn range_model(r: Seq<char>) -> (nat, nat) {
    let parts = split_seq(r, seq![',']);
    let start = match parse_bounded(parts[0], usize::MAX as nat) {
        Some(v) => v,
        None => 0,
    };
    let count = if parts.len() > 1 {
        match parse_bounded(parts[1], usize::MAX as nat) {
            Some(v) => v,
            None => 0,
        }
    } else {
        1
    };
    (start, count)
}

/// The hunk that a header line `@@ -a,b +c,d @@` opens, if the part between
/// the first two `@@` holds at least two words.
pub open spec fn hunk_header_model(line: Seq<char>) -> Option<DiffHunkModel> {
    let parts = split_seq(line, seq!['@', '@']);
    if parts.len() >= 2 {
        let words = words_of(trim_seq(parts[1]));
        if words.len() >= 2 {
            let old_r = range_model(strip_prefixes(words[0], seq!['-']));
            let new_r = range_model(strip_prefixes(words[1], seq!['+']));
            Some(
                DiffHunkModel {
                    old_range: HunkRange { start: old_r.0 as usize, count: old_r.1 as usize },
                    new_range: HunkRange { start: new_r.0 as usize, count: new_r.1 as usize },
                    lines: seq![],
                },
            )
        } else {
            None
        }
    } else {
        None
    }
}

/// Whether a line is a hunk content line (added, removed or context).
pub open spec fn is_content_line(line: Seq<char>) -> bool {
    line.len() > 0 && (line[0] == '+' || line[0] == '-' || line[0] == ' ')
}

/// The parser state after one more line.
pub open spec fn diff_step(st: DiffParseState, line: Seq<char>) -> DiffParseState {
    if is_prefix_of("diff --git "@, line) {
        DiffParseState {
            files: match st.current {
                Some(f) => st.files.push(ChangedFileModel { hunks: st.hunks, ..f }),
                None => st.files,
            },
            current: Some(fresh_file_model()),
            hunks: seq![],
        }
    } else if is_prefix_of("+++ b/"@, line) && line.len() > 6 {
        DiffParseState {
            current: match st.current {
                Some(f) => Some(ChangedFileModel { path: line.subrange(6, line.len() as int), ..f }),
                None => None,
            },
            ..st
        }
    } else if is_prefix_of("new file mode "@, line) {
        DiffParseState {
            current: match st.current {
                Some(f) => Some(
                    ChangedFileModel {
                        change_type: ChangeType::Added,
                        file_mode_change: Some(strip_prefixes(line, "new file mode "@)),
                        ..f
                    },
                ),
                None => None,
            },
            ..st
        }
    } else if is_prefix_of("deleted file mode "@, line) {
        DiffParseState {
            current: match st.current {
                Some(f) => Some(
                    ChangedFileModel {
                        change_type: ChangeType::Deleted,
                        file_mode_change: Some(strip_prefixes(line, "deleted file mode "@)),
                        ..f
                    },
                ),
                None => None,
            },
            ..st
        }
    } else if is_prefix_of("@@ "@, line) {
        if st.current is Some {
            match hunk_header_model(line) {
                Some(h) => DiffParseState { hunks: st.hunks.push(h), ..st },
                None => st,
            }
        } else {
            st
        }
    } else if is_content_line(line) && st.hunks.len() > 0 {
        let last = st.hunks.last();
        DiffParseState {
            hunks: st.hunks.update(
                st.hunks.len() - 1,
                DiffHunkModel { lines: last.lines.push(line), ..last },
            ),
            ..st
        }
    } else {
        st
    }
}

/// The parser state after a sequence of lines.
pub open spec fn diff_fold(lines: Seq<Seq<char>>) -> DiffParseState
    decreases lines.len(),
{
    if lines.len() == 0 {
        initial_parse_state()
    } else {
        diff_step(diff_fold(lines.drop_last()), lines.last())
    }
}

/// The diff that the parser yields once the input is exhausted: the file
/// being read receives the hunks read since its header (each earlier file
/// received its own when the next header came), and there is no metadata.
pub open spec fn finish_parse(st: DiffParseState) -> GitDiffModel {
    GitDiffModel {
        changed_files: match st.current {
            Some(f) => st.files.push(ChangedFileModel { hunks: st.hunks, ..f }),
            None => st.files,
        },
        metadata: None,
    }
}

/// The diff model of a `git diff` text.
pub open spec fn parsed_diff(text: Seq<char>) -> GitDiffModel {
    finish_parse(diff_fold(lines_of(text)))
}

/// The view of an optional changed file.
pub open spec fn opt_file_view(o: Option<ChangedFile>) -> Option<ChangedFileModel> {
    match o {
        Some(f) => Some(f@),
        None => None,
    }
}

/// Parses a range string like `1,5` into `(start, count)`.
pub fn parse_range(range: &[char]) -> (res: (usize, usize))
    ensures
        res.0 as nat == range_model(range@).0,
        res.1 as nat == range_model(range@).1,
{
    let parts = split_char(range, ',');
    assert(views(parts@)[0] == parts@[0]@);
    let start = match parse_usize(parts[0].as_slice()) {
        Some(v) => v,
        None => 0,
    };
    let count = if parts.len() > 1 {
        assert(views(parts@)[1] == parts@[1]@);
        match parse_usize(parts[1].as_slice()) {
            Some(v) => v,
            None => 0,
        }
    } else {
        1
    };
    (start, count)
}

/// Parses a hunk header line.
fn parse_hunk_header(line: &[char]) -> (res: Option<DiffHunk>)
    ensures
        match res {
            Some(h) => hunk_header_model(line@) == Some(h@),
            None => hunk_header_model(line@) is None,
        },
{
    proof {
        reveal_strlit("@@");
        assert("@@"@ =~= seq!['@', '@']);
    }
    let parts = split_str(line, "@@");
    if parts.len() >= 2 {
        assert(views(parts@)[1] == parts@[1]@);
        let range_part = trim_chars(parts[1].as_slice());
        let words = split_words(range_part.as_slice());
        if words.len() >= 2 {
            assert(views(words@)[0] == words@[0]@);
            assert(views(words@)[1] == words@[1]@);
            let old_str = strip_leading_char(words[0].as_slice(), '-');
            let new_str = strip_leading_char(words[1].as_slice(), '+');
            let old_range = parse_range(old_str.as_slice());
            let new_range = parse_range(new_str.as_slice());
            let h = DiffHunk {
                old_range: HunkRange { start: old_range.0, count: old_range.1 },
                new_range: HunkRange { start: new_range.0, count: new_range.1 },
                lines: Vec::new(),
            };
            assert(h@.lines =~= Seq::<Seq<char>>::empty());
            Some(h)
        } else {
            None
        }
    } else {
        None
    }
}

/// Parses Git diff output into a `GitDiff`.
///
/// Each `diff --git` header opens a file entry (modified unless a `new file
/// mode` or `deleted file mode` line follows); a `+++ b/` line names it;
/// `@@` headers open hunks and `+`, `-` and ` ` lines fill the latest hunk.
/// Each file keeps the hunks read under its own header. The result has no
/// metadata.
pub fn parse_git_diff_text(diff_text: &str) -> (res: Result<GitDiff, String>)
    ensures
        res matches Ok(d) && d@ == parsed_diff(diff_text@),
{
    let text = chars_of(diff_text);
    let lines = split_lines(text.as_slice());
    let mut files: Vec<ChangedFile> = Vec::new();
    let mut current: Option<ChangedFile> = None;
    let mut hunks: Vec<DiffHunk> = Vec::new();
    let mut i: usize = 0;
    proof {
        assert(views(lines@).take(0) =~= Seq::<Seq<char>>::empty());
        assert(file_views(files@) =~= Seq::<ChangedFileModel>::empty());
        assert(hunk_views(hunks@) =~= Seq::<DiffHunkModel>::empty());
    }
    while i < lines.len()
        invariant
            i <= lines@.len(),
            views(lines@) == lines_of(diff_text@),
            diff_fold(views(lines@).take(i as int)) == (DiffParseState {
                files: file_views(files@),
                current: opt_file_view(current),
                hunks: hunk_views(hunks@),
            }),
        decreases lines.len() - i,
    {
        let line = lines[i].as_slice();
        let ghost st = diff_fold(views(lines@).take(i as int));
        proof {
            assert(views(lines@).take(i + 1).drop_last() =~= views(lines@).take(i as int));
            assert(views(lines@).take(i + 1).last() == line@);
        }
        if starts_with(line, "diff --git ") {
            let prev = current;
            let done = hunks;
            match prev {
                Some(mut f) => {
                    f.hunks = done;
                    files.push(f);
                },
                None => {},
            }
            current = Some(
                ChangedFile {
                    path: String::new(),
                    change_type: ChangeType::Modified,
                    hunks: Vec::new(),
                    file_mode_change: None,
                },
            );
            hunks = Vec::new();
            proof {
                assert(hunk_views(hunks@) =~= Seq::<DiffHunkModel>::empty());
                assert(opt_file_view(current) =~= Some(fresh_file_model()));
                assert(file_views(files@) =~= match st.current {
                    Some(f) => st.files.push(ChangedFileModel { hunks: st.hunks, ..f }),
                    None => st.files,
                });
            }
        } else if starts_with(line, "+++ b/") && line.len() > 6 {
            let prev = current;
            match prev {
                Some(mut f) => {
                    let p = slice_chars(line, 6, line.len());
                    f.path = to_string(&p);
                    current = Some(f);
                },
                None => {
                    current = None;
                },
            }
        } else if starts_with(line, "new file mode ") {
            let prev = current;
            match prev {
                Some(mut f) => {
                    f.change_type = ChangeType::Added;
                    let m = strip_prefixes_str(line, "new file mode ");
                    f.file_mode_change = Some(to_string(&m));
                    current = Some(f);
                },
                None => {
                    current = None;
                },
            }
        } else if starts_with(line, "deleted file mode ") {
            let prev = current;
            match prev {
                Some(mut f) => {
                    f.change_type = ChangeType::Deleted;
                    let m = strip_prefixes_str(line, "deleted file mode ");
                    f.file_mode_change = Some(to_string(&m));
                    current = Some(f);
                },
                None => {
                    current = None;
                },
            }
        } else if starts_with(line, "@@ ") {
            if current.is_some() {
                match parse_hunk_header(line) {
                    Some(h) => {
                        hunks.push(h);
                        proof {
                            assert(hunk_views(hunks@) =~= st.hunks.push(h@));
                        }
                    },
                    None => {},
                }
            }
        } else if (starts_with_char(line, '+') || starts_with_char(line, '-')
            || starts_with_char(line, ' ')) && hunks.len() > 0 {
            let mut last = hunks.pop().unwrap();
            let ghost last0 = last;
            last.lines.push(to_string(&lines[i]));
            hunks.push(last);
            proof {
                assert(string_views(last.lines@) =~= string_views(last0.lines@).push(line@));
                assert(hunk_views(hunks@) =~= st.hunks.update(
                    st.hunks.len() - 1,
                    DiffHunkModel { lines: st.hunks.last().lines.push(line@), ..st.hunks.last() },
                ));
            }
        }
        i = i + 1;
    }
    proof {
        assert(views(lines@).take(i as int) =~= views(lines@));
    }
    match current {
        Some(mut f) => {
            f.hunks = hunks;
            files.push(f);
        },
        None => {},
    }
    let d = GitDiff { changed_files: files, metadata: None };
    proof {
        let st = diff_fold(lines_of(diff_text@));
        assert(d@.changed_files =~= finish_parse(st).changed_files);
    }
    Ok(d)
}


/// The number of `diff --git` header lines among `lines`.
pub open spec fn header_count(lines: Seq<Seq<char>>) -> nat
    decreases lines.len(),
{
    if lines.len() == 0 {
        0
    } else {
        header_count(lines.drop_last()) + if is_prefix_of("diff --git "@, lines.last()) {
            1nat
        } else {
            0nat
        }
    }
}

/// All lines of all hunks of `hs` are content lines.
pub open spec fn hunks_hold_content(hs: Seq<DiffHunkModel>) -> bool {
    forall|i: int, j: int|
        0 <= i < hs.len() && 0 <= j < hs[i].lines.len() ==> is_content_line(
            #[trigger] hs[i].lines[j],
        )
}

proof fn lemma_fold_shape(lines: Seq<Seq<char>>)
    ensures
        ({
            let st = diff_fold(lines);
            &&& st.files.len() + (if st.current is Some {
                1nat
            } else {
                0nat
            }) == header_count(lines)
            &&& (st.current is Some) == (header_count(lines) > 0)
            &&& hunks_hold_content(st.hunks)
            &&& forall|i: int| 0 <= i < st.files.len() ==> hunks_hold_content((#[trigger] st.files[i]).hunks)
            &&& st.current matches Some(f) ==> f.hunks.len() == 0
        }),
    decreases lines.len(),
{
    if lines.len() > 0 {
        lemma_fold_shape(lines.drop_last());
        let st0 = diff_fold(lines.drop_last());
        let st = diff_fold(lines);
        let line = lines.last();
        if is_prefix_of("diff --git "@, line) {
            assert forall|i: int| 0 <= i < st.files.len() implies hunks_hold_content(
                (#[trigger] st.files[i]).hunks,
            ) by {
                if i < st0.files.len() {
                    assert(st.files[i] == st0.files[i]);
                }
            }
        } else if is_prefix_of("+++ b/"@, line) && line.len() > 6 {
        } else if is_prefix_of("new file mode "@, line) {
        } else if is_prefix_of("deleted file mode "@, line) {
        } else if is_prefix_of("@@ "@, line) {
            if st0.current is Some {
                match hunk_header_model(line) {
                    Some(h) => {
                        assert forall|i: int, j: int|
                            0 <= i < st.hunks.len() && 0 <= j < st.hunks[i].lines.len() implies
                            is_content_line(#[trigger] st.hunks[i].lines[j]) by {
                            assert(st.hunks[i] == st0.hunks.push(h)[i]);
                            if i < st0.hunks.len() {
                                assert(st.hunks[i] == st0.hunks[i]);
                            }
                        }
                    },
                    None => {},
                }
            }
        } else if is_content_line(line) && st0.hunks.len() > 0 {
            assert forall|i: int, j: int|
                0 <= i < st.hunks.len() && 0 <= j < st.hunks[i].lines.len() implies
                is_content_line(#[trigger] st.hunks[i].lines[j]) by {
                if i < st0.hunks.len() - 1 {
                    assert(st.hunks[i] == st0.hunks[i]);
                } else {
                    let last = st0.hunks.last();
                    assert(st.hunks[i].lines == last.lines.push(line));
                    if j < last.lines.len() {
                        assert(st.hunks[i].lines[j] == st0.hunks[st0.hunks.len() - 1].lines[j]);
                    }
                }
            }
        }
    }
}

/// Law: the parser yields one changed file per `diff --git` header line.
pub proof fn law_one_file_per_header(text: Seq<char>)
    ensures
        parsed_diff(text).changed_files.len() == header_count(lines_of(text)),
{
    lemma_fold_shape(lines_of(text));
}

/// Law: every line that the parser stores in a hunk starts with `+`, `-` or
/// a space.
pub proof fn law_hunk_lines_are_content(text: Seq<char>)
    ensures
        forall|f: int, h: int, l: int|
            0 <= f < parsed_diff(text).changed_files.len() && 0 <= h
                < parsed_diff(text).changed_files[f].hunks.len() && 0 <= l
                < parsed_diff(text).changed_files[f].hunks[h].lines.len() ==> is_content_line(
                #[trigger] parsed_diff(text).changed_files[f].hunks[h].lines[l],
            ),
{
    let lines = lines_of(text);
    lemma_fold_shape(lines);
    let st = diff_fold(lines);
    let fs = parsed_diff(text).changed_files;
    assert forall|f: int, h: int, l: int|
        0 <= f < fs.len() && 0 <= h < fs[f].hunks.len() && 0 <= l < fs[f].hunks[h].lines.len()
        implies is_content_line(#[trigger] fs[f].hunks[h].lines[l]) by {
        if f < st.files.len() {
            assert(fs[f] == st.files[f]);
            assert(hunks_hold_content(st.files[f].hunks));
        } else {
            assert(fs[f].hunks == st.hunks);
        }
    }
}

/// A path read from one of the lines: empty, or the rest of a `+++ b/`
/// line after its prefix.
pub open spec fn path_from_lines(path: Seq<char>, lines: Seq<Seq<char>>) -> bool {
    path.len() == 0 || exists|k: int|
        0 <= k < lines.len() && is_prefix_of("+++ b/"@, #[trigger] lines[k]) && lines[k].len() > 6 && path
            == lines[k].subrange(6, lines[k].len() as int)
}

/// Every path the parser holds after some lines comes from them.
proof fn lemma_fold_paths(lines: Seq<Seq<char>>)
    ensures
        forall|i: int|
            0 <= i < diff_fold(lines).files.len() ==> path_from_lines(
                (#[trigger] diff_fold(lines).files[i]).path,
                lines,
            ),
        diff_fold(lines).current matches Some(f) ==> path_from_lines(f.path, lines),
    decreases lines.len(),
{
    if lines.len() > 0 {
        let init = lines.drop_last();
        lemma_fold_paths(init);
        let st = diff_fold(init);
        let st2 = diff_fold(lines);
        assert forall|p: Seq<char>| path_from_lines(p, init) implies path_from_lines(p, lines) by {
            if p.len() > 0 {
                let k = choose|k: int|
                    0 <= k < init.len() && is_prefix_of("+++ b/"@, #[trigger] init[k]) && init[k].len() > 6 && p
                        == init[k].subrange(6, init[k].len() as int);
                assert(lines[k] == init[k]);
            }
        }
        assert(lines[lines.len() - 1] == lines.last());
        assert forall|i: int| 0 <= i < st2.files.len() implies path_from_lines(
            (#[trigger] st2.files[i]).path,
            lines,
        ) by {
            if i < st.files.len() {
                assert(st2.files[i].path == st.files[i].path);
            }
        }
    }
}

/// Law: every file's path is empty or is what follows `+++ b/` on one of
/// the text's lines.
pub proof fn law_paths_come_from_plus_lines(text: Seq<char>)
    ensures
        forall|i: int|
            0 <= i < parsed_diff(text).changed_files.len() ==> path_from_lines(
                (#[trigger] parsed_diff(text).changed_files[i]).path,
                lines_of(text),
            ),
{
    let lines = lines_of(text);
    lemma_fold_paths(lines);
    let st = diff_fold(lines);
    let fs = parsed_diff(text).changed_files;
    assert forall|i: int| 0 <= i < fs.len() implies path_from_lines((#[trigger] fs[i]).path, lines) by {
        if i < st.files.len() {
            assert(fs[i].path == st.files[i].path);
        }
    }
}

/// The language of a path by its extension, compared without regard to
/// case: a known extension names its language, any other extension gives
/// `unknown`, and a path without an extension has none.
pub open spec fn diff_path_language(path: Seq<char>) -> Option<Seq<char>> {
    match path_extension_of(path) {
        Some(e) => Some(
            match extension_language(lowercase_of(e)) {
                Some(l) => l,
                None => "unknown"@,
            },
        ),
        None => None,
    }
}

/// The language of a file by its extension (see `diff_path_language`).
pub fn detect_language(path: &str) -> (res: Option<String>)
    ensures
        opt_string_view(res) == diff_path_language(path@),
{
    match path_extension(path) {
        Some(e) => {
            let lower = to_lowercase(e.as_str());
            match language_of_extension(&lower) {
                Some(l) => Some(l),
                None => Some(String::from_str("unknown")),
            }
        },
        None => None,
    }
}

} // verus!
