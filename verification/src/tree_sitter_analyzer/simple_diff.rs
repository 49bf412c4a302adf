//! A reduced reading of `git diff` output, which keeps file paths, kinds of
//! change and the number of hunks, and the language summary of a diff.

use vstd::prelude::*;
use vstd::string::StringExecFns;
use crate::tallies::{string_tally_view, tally, tally_strings};
use crate::text::{
    chars_of, is_prefix_of, lines_of, lowercase_of, opt_string_view, path_extension,
    path_extension_of, slice_chars, split_lines, starts_with, string_eq_str, string_views,
    to_lowercase, to_string, views,
};
use crate::tree_sitter_analyzer::model::{
    file_views, ChangeType, ChangedFile, ChangedFileModel, DiffHunk, DiffHunkModel, GitDiff,
    GitDiffModel, HunkRange,
};
use crate::tree_sitter_analyzer::parse_utils::{
    diff_fold, diff_step, fresh_file_model, opt_file_view, parsed_diff, DiffParseState,
};

verus! {

/// The hunk recorded for each hunk header: empty, with zero ranges.
pub open spec fn empty_hunk_model() -> DiffHunkModel {
    DiffHunkModel {
        old_range: HunkRange { start: 0, count: 0 },
        new_range: HunkRange { start: 0, count: 0 },
        lines: seq![],
    }
}

/// The reduced reader's state: completed files and the file being read.
pub struct SimpleReadState {
    pub files: Seq<ChangedFileModel>,
    pub current: Option<ChangedFileModel>,
}

/// The reduced reader's state after one more line.
pub open spec fn simple_step(st: SimpleReadState, line: Seq<char>) -> SimpleReadState {
    if is_prefix_of("diff --git "@, line) {
        SimpleReadState {
            files: match st.current {
                Some(f) => st.files.push(f),
                None => st.files,
            },
            current: Some(fresh_file_model()),
        }
    } else if is_prefix_of("+++ b/"@, line) && line.len() > 6 {
        SimpleReadState {
            current: match st.current {
                Some(f) => Some(ChangedFileModel { path: line.subrange(6, line.len() as int), ..f }),
                None => None,
            },
            ..st
        }
    } else if is_prefix_of("new file mode "@, line) {
        SimpleReadState {
            current: match st.current {
                Some(f) => Some(ChangedFileModel { change_type: ChangeType::Added, ..f }),
                None => None,
            },
            ..st
        }
    } else if is_prefix_of("deleted file mode "@, line) {
        SimpleReadState {
            current: match st.current {
                Some(f) => Some(ChangedFileModel { change_type: ChangeType::Deleted, ..f }),
                None => None,
            },
            ..st
        }
    } else if is_prefix_of("@@ "@, line) {
        SimpleReadState {
            current: match st.current {
                Some(f) => Some(ChangedFileModel { hunks: f.hunks.push(empty_hunk_model()), ..f }),
                None => None,
            },
            ..st
        }
    } else {
        st
    }
}

/// The reduced reader's state after a sequence of lines.
pub open spec fn simple_fold(lines: Seq<Seq<char>>) -> SimpleReadState
    decreases lines.len(),
{
    if lines.len() == 0 {
        SimpleReadState { files: seq![], current: None }
    } else {
        simple_step(simple_fold(lines.drop_last()), lines.last())
    }
}

/// The reduced diff of a text.
pub open spec fn simple_diff(text: Seq<char>) -> GitDiffModel {
    let st = simple_fold(lines_of(text));
    GitDiffModel {
        changed_files: match st.current {
            Some(f) => st.files.push(f),
            None => st.files,
        },
        metadata: None,
    }
}

/// Reads Git diff output into a `GitDiff` that keeps, for each
/// `diff --git` header, the path of its `+++ b/` line, whether a
/// `new file mode` or `deleted file mode` line follows, and one empty hunk
/// per `@@` header.
pub fn parse_simple_diff(diff_text: &str) -> (res: GitDiff)
    ensures
        res@ == simple_diff(diff_text@),
{
    let text = chars_of(diff_text);
    let lines = split_lines(text.as_slice());
    let mut files: Vec<ChangedFile> = Vec::new();
    let mut current: Option<ChangedFile> = None;
    let mut i: usize = 0;
    proof {
        assert(views(lines@).take(0) =~= Seq::<Seq<char>>::empty());
        assert(file_views(files@) =~= Seq::<ChangedFileModel>::empty());
    }
    while i < lines.len()
        invariant
            i <= lines@.len(),
            views(lines@) == lines_of(diff_text@),
            simple_fold(views(lines@).take(i as int)) == (SimpleReadState {
                files: file_views(files@),
                current: opt_file_view(current),
            }),
        decreases lines.len() - i,
    {
        let line = lines[i].as_slice();
        let ghost st = simple_fold(views(lines@).take(i as int));
        proof {
            assert(views(lines@).take(i + 1).drop_last() =~= views(lines@).take(i as int));
            assert(views(lines@).take(i + 1).last() == line@);
        }
        if starts_with(line, "diff --git ") {
            let prev = current;
            match prev {
                Some(f) => {
                    files.push(f);
                },
                None => {},
            }
            let fresh = ChangedFile {
                path: String::new(),
                change_type: ChangeType::Modified,
                hunks: Vec::new(),
                file_mode_change: None,
            };
            assert(fresh@.hunks =~= Seq::<DiffHunkModel>::empty());
            assert(fresh@.path =~= Seq::<char>::empty());
            current = Some(fresh);
            proof {
                assert(file_views(files@) =~= match st.current {
                    Some(f) => st.files.push(f),
                    None => st.files,
                });
            }
        } else if starts_with(line, "+++ b/") && line.len() > 6 {
            let prev = current;
            match prev {
                Some(mut f) => {
                    let p = slice_chars(line, 6, line.len());
                    f.path = to_string(&p);
                    current = Some(f);
                },
                None => {
                    current = None;
                },
            }
        } else if starts_with(line, "new file mode ") {
            let prev = current;
            match prev {
                Some(mut f) => {
                    f.change_type = ChangeType::Added;
                    current = Some(f);
                },
                None => {
                    current = None;
                },
            }
        } else if starts_with(line, "deleted file mode ") {
            let prev = current;
            match prev {
                Some(mut f) => {
                    f.change_type = ChangeType::Deleted;
                    current = Some(f);
                },
                None => {
                    current = None;
                },
            }
        } else if starts_with(line, "@@ ") {
            let prev = current;
            match prev {
                Some(mut f) => {
                    let ghost f0 = f@;
                    let h = DiffHunk {
                        old_range: HunkRange { start: 0, count: 0 },
                        new_range: HunkRange { start: 0, count: 0 },
                        lines: Vec::new(),
                    };
                    assert(h@ == empty_hunk_model()) by {
                        assert(h@.lines =~= Seq::<Seq<char>>::empty());
                    }
                    f.hunks.push(h);
                    assert(f@.hunks =~= f0.hunks.push(empty_hunk_model()));
                    current = Some(f);
                },
                None => {
                    current = None;
                },
            }
        }
        i = i + 1;
    }
    proof {
        assert(views(lines@).take(i as int) =~= views(lines@));
    }
    let ghost st = simple_fold(lines_of(diff_text@));
    match current {
        Some(f) => {
            files.push(f);
        },
        None => {},
    }
    let d = GitDiff { changed_files: files, metadata: None };
    assert(d@.changed_files =~= match st.current {
        Some(f) => st.files.push(f),
        None => st.files,
    });
    d
}

/// The language named by a lower-cased file extension, if any.
pub open spec fn extension_language(e: Seq<char>) -> Option<Seq<char>> {
    if e == "rs"@ {
        Some("rust"@)
    } else if e == "py"@ {
        Some("python"@)
    } else if e == "java"@ {
        Some("java"@)
    } else if e == "js"@ || e == "jsx"@ {
        Some("javascript"@)
    } else if e == "ts"@ || e == "tsx"@ {
        Some("typescript"@)
    } else if e == "c"@ {
        Some("c"@)
    } else if e == "cpp"@ || e == "cc"@ || e == "cxx"@ || e == "hpp"@ || e == "h"@ {
        Some("cpp"@)
    } else if e == "go"@ {
        Some("go"@)
    } else {
        None
    }
}

/// The language named by a lower-cased file extension, if any.
pub fn language_of_extension(e: &String) -> (res: Option<String>)
    ensures
        opt_string_view(res) == extension_language(e@),
{
    if string_eq_str(e, "rs") {
        Some(String::from_str("rust"))
    } else if string_eq_str(e, "py") {
        Some(String::from_str("python"))
    } else if string_eq_str(e, "java") {
        Some(String::from_str("java"))
    } else if string_eq_str(e, "js") || string_eq_str(e, "jsx") {
        Some(String::from_str("javascript"))
    } else if string_eq_str(e, "ts") || string_eq_str(e, "tsx") {
        Some(String::from_str("typescript"))
    } else if string_eq_str(e, "c") {
        Some(String::from_str("c"))
    } else if string_eq_str(e, "cpp") || string_eq_str(e, "cc") || string_eq_str(e, "cxx")
        || string_eq_str(e, "hpp") || string_eq_str(e, "h") {
        Some(String::from_str("cpp"))
    } else if string_eq_str(e, "go") {
        Some(String::from_str("go"))
    } else {
        None
    }
}

/// The language of a path by its extension, compared without regard to
/// case; none for paths without an extension or with an unknown one.
pub open spec fn path_language(path: Seq<char>) -> Option<Seq<char>> {
    match path_extension_of(path) {
        Some(e) => extension_language(lowercase_of(e)),
        None => None,
    }
}

/// The language of a file by its extension (see `path_language`).
pub fn detect_language_from_path(path: &str) -> (res: Option<String>)
    ensures
        opt_string_view(res) == path_language(path@),
{
    match path_extension(path) {
        Some(e) => {
            let lower = to_lowercase(e.as_str());
            language_of_extension(&lower)
        },
        None => None,
    }
}

/// The languages of the changed files of a diff whose language is known,
/// in diff order.
pub open spec fn diff_languages(fs: Seq<ChangedFileModel>) -> Seq<Seq<char>>
    decreases fs.len(),
{
    if fs.len() == 0 {
        seq![]
    } else {
        match path_language(fs.last().path) {
            Some(l) => diff_languages(fs.drop_last()).push(l),
            None => diff_languages(fs.drop_last()),
        }
    }
}

/// Each language of the changed files of a diff, in order of first
/// appearance, with the number of its files; files of no known language are
/// left out.
pub fn summarize_languages(git_diff: &GitDiff) -> (res: Vec<(String, usize)>)
    ensures
        string_tally_view(res@) == tally(diff_languages(git_diff@.changed_files)),
{
    let ghost fs = git_diff@.changed_files;
    let mut languages: Vec<String> = Vec::new();
    let mut i: usize = 0;
    while i < git_diff.changed_files.len()
        invariant
            fs == git_diff@.changed_files,
            i <= fs.len(),
            string_views(languages@) == diff_languages(fs.take(i as int)),
        decreases git_diff.changed_files.len() - i,
    {
        proof {
            assert(fs.take(i + 1).drop_last() =~= fs.take(i as int));
            assert(fs.take(i + 1).last() == git_diff.changed_files@[i as int]@);
        }
        let ghost before = string_views(languages@);
        match detect_language_from_path(git_diff.changed_files[i].path.as_str()) {
            Some(l) => {
                languages.push(l);
                assert(string_views(languages@) =~= before.push(languages@.last()@));
            },
            None => {},
        }
        i = i + 1;
    }
    proof {
        assert(fs.take(i as int) =~= fs);
    }
    tally_strings(&languages)
}

/// Two file entries with the same path and kind of change.
pub open spec fn same_entry(a: ChangedFileModel, b: ChangedFileModel) -> bool {
    a.path == b.path && a.change_type == b.change_type
}

/// The reduced reader and the full parser have read the same files so far,
/// each with the same path and kind of change.
pub open spec fn states_agree(s: SimpleReadState, p: DiffParseState) -> bool {
    &&& s.files.len() == p.files.len()
    &&& forall|i: int| 0 <= i < s.files.len() ==> same_entry(#[trigger] s.files[i], p.files[i])
    &&& match (s.current, p.current) {
        (Some(a), Some(b)) => same_entry(a, b),
        (None, None) => true,
        _ => false,
    }
}

/// One more line keeps the two readers in agreement.
proof fn lemma_step_agrees(s: SimpleReadState, p: DiffParseState, line: Seq<char>)
    requires
        states_agree(s, p),
    ensures
        states_agree(simple_step(s, line), diff_step(p, line)),
{
    let s2 = simple_step(s, line);
    let p2 = diff_step(p, line);
    if is_prefix_of("diff --git "@, line) {
        assert forall|i: int| 0 <= i < s2.files.len() implies same_entry(#[trigger] s2.files[i], p2.files[i]) by {
            if i < s.files.len() {
                assert(same_entry(s.files[i], p.files[i]));
            }
        }
    } else {
        assert(s2.files == s.files && p2.files == p.files);
    }
}

/// The two readers agree after any sequence of lines.
proof fn lemma_fold_agrees(lines: Seq<Seq<char>>)
    ensures
        states_agree(simple_fold(lines), diff_fold(lines)),
    decreases lines.len(),
{
    if lines.len() > 0 {
        lemma_fold_agrees(lines.drop_last());
        lemma_step_agrees(simple_fold(lines.drop_last()), diff_fold(lines.drop_last()), lines.last());
    }
}

/// Law: the reduced reading of a diff lists the same files as the full
/// parse, in the same order, each with the same path and kind of change,
/// and neither has metadata.
pub proof fn law_simple_diff_lists_the_parsed_files(text: Seq<char>)
    ensures
        simple_diff(text).changed_files.len() == parsed_diff(text).changed_files.len(),
        forall|i: int|
            0 <= i < simple_diff(text).changed_files.len() ==> same_entry(
                #[trigger] simple_diff(text).changed_files[i],
                parsed_diff(text).changed_files[i],
            ),
        simple_diff(text).metadata == parsed_diff(text).metadata,
{
    let lines = lines_of(text);
    lemma_fold_agrees(lines);
    let s = simple_fold(lines);
    let p = diff_fold(lines);
    let a = simple_diff(text).changed_files;
    let b = parsed_diff(text).changed_files;
    assert forall|i: int| 0 <= i < a.len() implies same_entry(#[trigger] a[i], b[i]) by {
        if i < s.files.len() {
            assert(same_entry(s.files[i], p.files[i]));
        }
    }
}

/// Whether a `diff --git` header is among the lines.
pub open spec fn has_header(lines: Seq<Seq<char>>) -> bool
    decreases lines.len(),
{
    lines.len() > 0 && (has_header(lines.drop_last()) || is_prefix_of("diff --git "@, lines.last()))
}

/// How many `@@ ` lines follow the first `diff --git` header.
pub open spec fn hunk_headers_after_header(lines: Seq<Seq<char>>) -> nat
    decreases lines.len(),
{
    if lines.len() == 0 {
        0
    } else {
        hunk_headers_after_header(lines.drop_last()) + if has_header(lines.drop_last()) && is_prefix_of(
            "@@ "@,
            lines.last(),
        ) {
            1nat
        } else {
            0nat
        }
    }
}

/// The number of hunks of a list of files.
pub open spec fn total_hunks(fs: Seq<ChangedFileModel>) -> nat
    decreases fs.len(),
{
    if fs.len() == 0 {
        0
    } else {
        total_hunks(fs.drop_last()) + fs.last().hunks.len()
    }
}

/// A file entry of the reduced reading: every hunk empty, with zero ranges,
/// and no file mode.
pub open spec fn reduced_entry(f: ChangedFileModel) -> bool {
    &&& f.file_mode_change is None
    &&& forall|h: int| 0 <= h < f.hunks.len() ==> #[trigger] f.hunks[h] == empty_hunk_model()
}

/// What the reduced reader keeps while it reads.
pub open spec fn reduced_state(st: SimpleReadState, lines: Seq<Seq<char>>) -> bool {
    &&& forall|i: int| 0 <= i < st.files.len() ==> reduced_entry(#[trigger] st.files[i])
    &&& (st.current is Some <==> has_header(lines))
    &&& (st.current matches Some(f) ==> reduced_entry(f))
    &&& total_hunks(st.files) + match st.current {
        Some(f) => f.hunks.len(),
        None => 0,
    } == hunk_headers_after_header(lines)
}

/// The reduced reader keeps its state while it reads.
proof fn lemma_reduced_fold(lines: Seq<Seq<char>>)
    ensures
        reduced_state(simple_fold(lines), lines),
    decreases lines.len(),
{
    reveal_strlit("@@ ");
    reveal_strlit("diff --git ");
    reveal_strlit("+++ b/");
    reveal_strlit("new file mode ");
    reveal_strlit("deleted file mode ");
    if lines.len() > 0 {
        let init = lines.drop_last();
        let line = lines.last();
        lemma_reduced_fold(init);
        let st = simple_fold(init);
        let st2 = simple_fold(lines);
        assert(st2 == simple_step(st, line));
        if is_prefix_of("@@ "@, line) {
            assert(line.subrange(0, 3)[0] == line[0]);
            assert(!is_prefix_of("diff --git "@, line)) by {
                if is_prefix_of("diff --git "@, line) {
                    assert(line.subrange(0, 11)[0] == line[0]);
                }
            }
            assert(!is_prefix_of("+++ b/"@, line)) by {
                if is_prefix_of("+++ b/"@, line) {
                    assert(line.subrange(0, 6)[0] == line[0]);
                }
            }
            assert(!is_prefix_of("new file mode "@, line)) by {
                if is_prefix_of("new file mode "@, line) {
                    assert(line.subrange(0, 14)[0] == line[0]);
                }
            }
            assert(!is_prefix_of("deleted file mode "@, line)) by {
                if is_prefix_of("deleted file mode "@, line) {
                    assert(line.subrange(0, 18)[0] == line[0]);
                }
            }
            match st.current {
                Some(f) => {
                    let f2 = ChangedFileModel { hunks: f.hunks.push(empty_hunk_model()), ..f };
                    assert(reduced_entry(f2)) by {
                        assert forall|h: int| 0 <= h < f2.hunks.len() implies #[trigger] f2.hunks[h]
                            == empty_hunk_model() by {
                            if h < f.hunks.len() {
                                assert(f2.hunks[h] == f.hunks[h]);
                            }
                        }
                    }
                },
                None => {},
            }
        } else if is_prefix_of("diff --git "@, line) {
            match st.current {
                Some(f) => {
                    assert(total_hunks(st.files.push(f)) == total_hunks(st.files) + f.hunks.len()) by {
                        assert(st.files.push(f).drop_last() =~= st.files);
                    }
                },
                None => {},
            }
        }
    }
}

/// Law: the reduced reading keeps one empty hunk, with zero ranges and no
/// lines, for each `@@ ` line that follows a `diff --git` header, and no
/// file mode; and it reads files exactly where the text holds a header.
pub proof fn law_simple_diff_counts_hunk_headers(text: Seq<char>)
    ensures
        forall|i: int|
            0 <= i < simple_diff(text).changed_files.len() ==> reduced_entry(
                #[trigger] simple_diff(text).changed_files[i],
            ),
        total_hunks(simple_diff(text).changed_files) == hunk_headers_after_header(lines_of(text)),
        simple_diff(text).changed_files.len() > 0 <==> has_header(lines_of(text)),
{
    let lines = lines_of(text);
    lemma_reduced_fold(lines);
    let st = simple_fold(lines);
    let fs = simple_diff(text).changed_files;
    match st.current {
        Some(f) => {
            assert(fs == st.files.push(f));
            assert(fs.drop_last() =~= st.files);
            assert forall|i: int| 0 <= i < fs.len() implies reduced_entry(#[trigger] fs[i]) by {
                if i < st.files.len() {
                    assert(fs[i] == st.files[i]);
                }
            }
        },
        None => {
            assert(fs == st.files);
            lemma_no_header_no_files(lines);
        },
    }
}

/// Without a header the reduced reader reads no file.
proof fn lemma_no_header_no_files(lines: Seq<Seq<char>>)
    requires
        !has_header(lines),
    ensures
        simple_fold(lines).files.len() == 0,
    decreases lines.len(),
{
    if lines.len() > 0 {
        lemma_no_header_no_files(lines.drop_last());
        lemma_reduced_fold(lines.drop_last());
    }
}

} // verus!
