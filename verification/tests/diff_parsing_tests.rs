use gitie::tree_sitter_analyzer::analyzer_diff::{create_simple_git_diff, parse_git_diff_text as read_analyzer_diff, parse_hunk_range};
use gitie::tree_sitter_analyzer::model::ChangeType;
use gitie::tree_sitter_analyzer::parse_utils::{detect_language as ext_language, parse_git_diff_text, parse_range};
use gitie::tree_sitter_analyzer::simple_diff::{detect_language_from_path, parse_simple_diff, summarize_languages};
use gitie::nops::{nop, nop_err, nop_none, nop_ok, nop_some, Nop};
use gitie::tallies::{count_string, distinct_strings, tally_strings};

const TWO_FILES: &str = "diff --git a/a.rs b/a.rs\n--- a/a.rs\n+++ b/a.rs\n@@ -1,2 +1,3 @@\n x\n+y\ndiff --git a/b.py b/b.py\nnew file mode 100644\n--- /dev/null\n+++ b/b.py\n@@ -0,0 +1 @@\n+print(1)\n";

#[test]
fn simple_diff_keeps_files_and_empty_hunks() {
    let d = parse_simple_diff(TWO_FILES);
    assert_eq!(d.changed_files.len(), 2);
    assert_eq!(d.changed_files[0].path, "a.rs");
    assert_eq!(d.changed_files[0].change_type, ChangeType::Modified);
    assert_eq!(d.changed_files[0].hunks.len(), 1);
    assert!(d.changed_files[0].hunks[0].lines.is_empty());
    assert_eq!(d.changed_files[0].hunks[0].new_range.start, 0);
    assert_eq!(d.changed_files[1].change_type, ChangeType::Added);
    assert!(parse_simple_diff("").changed_files.is_empty());
}

#[test]
fn utils_diff_gives_each_file_its_hunks() {
    let d = parse_git_diff_text(TWO_FILES).unwrap();
    assert_eq!(d.changed_files.len(), 2);
    assert!(d.metadata.is_none());
    assert_eq!(d.changed_files[0].hunks.len(), 1);
    assert_eq!(d.changed_files[0].hunks[0].lines, vec![" x".to_string(), "+y".to_string()]);
    let b = &d.changed_files[1];
    assert_eq!(b.path, "b.py");
    assert_eq!(b.file_mode_change.as_deref(), Some("100644"));
    assert_eq!(b.hunks.len(), 1);
    assert_eq!((b.hunks[0].new_range.start, b.hunks[0].new_range.count), (1, 1));
    assert_eq!(b.hunks[0].lines, vec!["+print(1)".to_string()]);
    assert_eq!(parse_range("3,4".chars().collect::<Vec<_>>().as_slice()), (3, 4));
    assert_eq!(parse_range("7".chars().collect::<Vec<_>>().as_slice()), (7, 1));
    assert_eq!(parse_range("a,b".chars().collect::<Vec<_>>().as_slice()), (0, 0));
    assert_eq!(ext_language("src/A.JAVA"), Some("java".to_string()));
    assert_eq!(ext_language("notes.txt"), Some("unknown".to_string()));
    assert_eq!(ext_language("Makefile"), None);
}

#[test]
fn analyzer_diff_reads_hunk_lines() {
    let d = read_analyzer_diff(TWO_FILES).unwrap();
    assert_eq!(d.changed_files.len(), 2);
    assert!(d.metadata.is_none());
    let a = &d.changed_files[0];
    assert_eq!(a.hunks.len(), 1);
    assert_eq!(a.hunks[0].lines, vec![" x".to_string(), "+y".to_string()]);
    assert_eq!((a.hunks[0].old_range.start, a.hunks[0].old_range.count), (1, 2));
    let b = &d.changed_files[1];
    assert_eq!(b.hunks.len(), 1);
    assert_eq!(b.hunks[0].lines, vec!["+print(1)".to_string()]);
    assert_eq!((b.hunks[0].new_range.start, b.hunks[0].new_range.count), (1, 1));
    assert!(read_analyzer_diff("   \n").unwrap().changed_files.is_empty());
    let r = parse_hunk_range("5,x");
    assert_eq!((r.start, r.count), (5, 0));
    assert_eq!(create_simple_git_diff(TWO_FILES).changed_files.len(), 2);
}

#[test]
fn languages_of_paths() {
    assert_eq!(detect_language_from_path("x/Y.Rs"), Some("rust".to_string()));
    assert_eq!(detect_language_from_path("a.tsx"), Some("typescript".to_string()));
    assert_eq!(detect_language_from_path("a.h"), Some("cpp".to_string()));
    assert_eq!(detect_language_from_path("a.md"), None);
    let d = parse_simple_diff(TWO_FILES);
    assert_eq!(summarize_languages(&d), vec![("rust".to_string(), 1), ("python".to_string(), 1)]);
}

#[test]
fn tallies_in_first_appearance_order() {
    let ks: Vec<String> = ["b", "a", "b", "c", "a", "b"].iter().map(|s| s.to_string()).collect();
    assert_eq!(distinct_strings(&ks), vec!["b".to_string(), "a".to_string(), "c".to_string()]);
    assert_eq!(count_string(&ks, &"b".to_string()), 3);
    assert_eq!(count_string(&ks, &"z".to_string()), 0);
    assert_eq!(
        tally_strings(&ks),
        vec![("b".to_string(), 3), ("a".to_string(), 2), ("c".to_string(), 1)]
    );
    assert!(tally_strings(&vec![]).is_empty());
}

#[test]
fn nops_return_their_input() {
    nop();
    assert_eq!(nop_ok::<i32, String>(3), Ok(3));
    assert_eq!(nop_err::<i32, String>("e".to_string()), Err("e".to_string()));
    assert_eq!(nop_some(4), Some(4));
    assert_eq!(nop_none::<i32>(), None);
    let n = Nop::new();
    n.do_nothing();
    assert_eq!(Nop::identity("x"), "x");
}

const REVIEW_TWO_FILES: &str = "diff --git a/a.rs b/a.rs\n--- a/a.rs\n+++ b/a.rs\n@@ -1,2 +1,2 @@\n-x\n+y\ndiff --git a/b.rs b/b.rs\n--- a/b.rs\n+++ b/b.rs\n@@ -3 +3 @@\n-p\n+q\n";

#[test]
fn both_readers_keep_hunks_under_their_headers() {
    for g in [parse_git_diff_text(REVIEW_TWO_FILES).unwrap(), read_analyzer_diff(REVIEW_TWO_FILES).unwrap()] {
        assert_eq!(g.changed_files.len(), 2);
        assert_eq!(g.changed_files[0].path, "a.rs");
        assert_eq!(g.changed_files[0].hunks.len(), 1);
        assert_eq!(g.changed_files[0].hunks[0].lines, vec!["-x".to_string(), "+y".to_string()]);
        assert_eq!(g.changed_files[1].path, "b.rs");
        assert_eq!(g.changed_files[1].hunks.len(), 1);
        assert_eq!(g.changed_files[1].hunks[0].lines, vec!["-p".to_string(), "+q".to_string()]);
        let r = g.changed_files[1].hunks[0].old_range;
        assert_eq!((r.start, r.count), (3, 1));
        assert!(g.metadata.is_none());
    }
    assert!(parse_simple_diff(REVIEW_TWO_FILES).metadata.is_none());
}

#[test]
fn simple_reading_lists_the_parsed_files() {
    let text = "diff --git a/n.rs b/n.rs\nnew file mode 100644\n--- /dev/null\n+++ b/n.rs\n@@ -0,0 +1 @@\n+x\ndiff --git a/o.rs b/o.rs\ndeleted file mode 100644\n--- a/o.rs\n+++ /dev/null\n@@ -1 +0,0 @@\n-y\n";
    for t in [text, REVIEW_TWO_FILES] {
        let full = parse_git_diff_text(t).unwrap();
        let simple = parse_simple_diff(t);
        assert_eq!(simple.changed_files.len(), full.changed_files.len());
        for (a, b) in simple.changed_files.iter().zip(full.changed_files.iter()) {
            assert_eq!(a.path, b.path);
            assert_eq!(a.change_type, b.change_type);
        }
    }
    let simple = parse_simple_diff(text);
    assert_eq!((simple.changed_files[0].path.as_str(), simple.changed_files[0].change_type), ("n.rs", ChangeType::Added));
    assert_eq!((simple.changed_files[1].path.as_str(), simple.changed_files[1].change_type), ("", ChangeType::Deleted));
}

#[test]
fn simple_reading_counts_hunk_headers_after_a_header() {
    let text = "@@ -1 +1 @@\ndiff --git a/a.rs b/a.rs\n+++ b/a.rs\n@@ -1 +1 @@\n-x\n+y\n@@ -5 +5 @@\ndiff --git a/b.rs b/b.rs\n+++ b/b.rs\n@@ -2 +2 @@\n";
    let d = parse_simple_diff(text);
    let counts: Vec<usize> = d.changed_files.iter().map(|f| f.hunks.len()).collect();
    assert_eq!(counts, vec![2, 1]);
    for f in &d.changed_files {
        assert!(f.file_mode_change.is_none());
        for h in &f.hunks {
            assert_eq!((h.old_range.start, h.old_range.count, h.new_range.start, h.new_range.count), (0, 0, 0, 0));
            assert!(h.lines.is_empty());
        }
    }
    assert!(parse_simple_diff("@@ -1 +1 @@\n").changed_files.is_empty());
}
