//! The diff model shared by the analyzers: changed files, hunks and ranges.

use vstd::prelude::*;
use vstd::string::StringSliceAdditionalSpecFns;
use crate::errors::TreeSitterError;
use crate::text::{
    chars_of, extend_str, extend_string, hex_chars, hexadecimal, opt_string_view, parse_bounded,
    parse_u32, slice_chars, split_char, split_seq, starts_with_char, string_views, to_string,
    views,
};
use crate::tree_sitter_analyzer::parse_utils::{parse_git_diff_text, parsed_diff};

verus! {

/// The type of change of a file in a Git diff.
#[derive(Debug, Clone, Copy, PartialEq, Eq, Structural)]
pub enum ChangeType {
    Added,
    Modified,
    Deleted,
    Renamed,
    Copied,
    TypeChanged,
}

/// A range of lines in a diff hunk.
#[derive(Debug, Clone, Copy, PartialEq, Eq, Structural)]
pub struct LineRange {
    pub start: u32,
    pub count: u32,
}

impl LineRange {
    /// A range of `count` lines starting at line `start`.
    pub fn new(start: u32, count: u32) -> (res: Self)
        ensures
            res.start == start,
            res.count == count,
    {
        Self { start, count }
    }

    /// The last line of the range: `start + count - 1`, or `start` for an
    /// empty range.
    pub fn end(&self) -> (res: u32)
        requires
            self.count == 0 || self.start + self.count <= u32::MAX,
        ensures
            res == line_range_end(*self),
    {
        if self.count > 0 {
            self.start + self.count - 1
        } else {
            self.start
        }
    }
}

/// The last line of a range (see `LineRange::end`).
pub open spec fn line_range_end(r: LineRange) -> int {
    if r.count > 0 {
        r.start + r.count - 1
    } else {
        r.start as int
    }
}

/// A hunk range in Git diff format (`@@ -a,b +c,d @@`).
#[derive(Debug, Clone, Copy, PartialEq, Eq, Structural)]
pub struct HunkRange {
    pub start: usize,
    pub count: usize,
}

/// A single hunk of a Git diff.
#[derive(Debug, Clone)]
pub struct DiffHunk {
    pub old_range: HunkRange,
    pub new_range: HunkRange,
    pub lines: Vec<String>,
}

/// The abstract value of a hunk.
pub struct DiffHunkModel {
    pub old_range: HunkRange,
    pub new_range: HunkRange,
    pub lines: Seq<Seq<char>>,
}

impl View for DiffHunk {
    type V = DiffHunkModel;

    open spec fn view(&self) -> DiffHunkModel {
        DiffHunkModel {
            old_range: self.old_range,
            new_range: self.new_range,
            lines: string_views(self.lines@),
        }
    }
}

/// The views of a sequence of hunks.
pub open spec fn hunk_views(v: Seq<DiffHunk>) -> Seq<DiffHunkModel> {
    v.map_values(|h: DiffHunk| h@)
}

/// A changed file of a Git diff (the older representation, with the path it
/// had before the change).
#[derive(Debug, Clone)]
pub struct FileDiff {
    pub path: String,
    pub old_path: Option<String>,
    pub change_type: ChangeType,
    pub hunks: Vec<DiffHunk>,
}

/// A changed file of a Git diff.
#[derive(Debug, Clone)]
pub struct ChangedFile {
    pub path: String,
    pub change_type: ChangeType,
    pub hunks: Vec<DiffHunk>,
    pub file_mode_change: Option<String>,
}

/// The abstract value of a changed file.
pub struct ChangedFileModel {
    pub path: Seq<char>,
    pub change_type: ChangeType,
    pub hunks: Seq<DiffHunkModel>,
    pub file_mode_change: Option<Seq<char>>,
}

impl View for ChangedFile {
    type V = ChangedFileModel;

    open spec fn view(&self) -> ChangedFileModel {
        ChangedFileModel {
            path: self.path@,
            change_type: self.change_type,
            hunks: hunk_views(self.hunks@),
            file_mode_change: opt_string_view(self.file_mode_change),
        }
    }
}

/// The views of a sequence of changed files.
pub open spec fn file_views(v: Seq<ChangedFile>) -> Seq<ChangedFileModel> {
    v.map_values(|f: ChangedFile| f@)
}

/// A whole Git diff.
#[derive(Debug, Clone)]
pub struct GitDiff {
    pub changed_files: Vec<ChangedFile>,
    /// Key/value metadata, in insertion order.
    pub metadata: Option<Vec<(String, String)>>,
}

/// The abstract value of a Git diff: its changed files and its metadata.
pub struct GitDiffModel {
    pub changed_files: Seq<ChangedFileModel>,
    pub metadata: Option<Seq<(Seq<char>, Seq<char>)>>,
}

/// The view of optional metadata.
pub open spec fn metadata_view(m: Option<Vec<(String, String)>>) -> Option<Seq<(Seq<char>, Seq<char>)>> {
    match m {
        Some(v) => Some(v@.map_values(|e: (String, String)| (e.0@, e.1@))),
        None => None,
    }
}

impl View for GitDiff {
    type V = GitDiffModel;

    open spec fn view(&self) -> GitDiffModel {
        GitDiffModel { changed_files: file_views(self.changed_files@), metadata: metadata_view(self.metadata) }
    }
}


/// The number of lines of a sequence of hunks.
pub open spec fn hunks_line_count(hs: Seq<DiffHunkModel>) -> nat
    decreases hs.len(),
{
    if hs.len() == 0 {
        0
    } else {
        hunks_line_count(hs.drop_last()) + hs.last().lines.len()
    }
}

/// The number of hunk lines of a sequence of files.
pub open spec fn files_line_count(fs: Seq<ChangedFileModel>) -> nat
    decreases fs.len(),
{
    if fs.len() == 0 {
        0
    } else {
        files_line_count(fs.drop_last()) + hunks_line_count(fs.last().hunks)
    }
}

/// A line that records a change: it starts with `+` or `-`.
pub open spec fn is_change_line(l: Seq<char>) -> bool {
    l.len() > 0 && (l[0] == '+' || l[0] == '-')
}

/// The number of change lines in a sequence of lines.
pub open spec fn change_line_count(ls: Seq<Seq<char>>) -> nat
    decreases ls.len(),
{
    if ls.len() == 0 {
        0
    } else {
        change_line_count(ls.drop_last()) + if is_change_line(ls.last()) {
            1nat
        } else {
            0nat
        }
    }
}

/// The number of change lines of a sequence of hunks.
pub open spec fn hunks_change_count(hs: Seq<DiffHunkModel>) -> nat
    decreases hs.len(),
{
    if hs.len() == 0 {
        0
    } else {
        hunks_change_count(hs.drop_last()) + change_line_count(hs.last().lines)
    }
}

/// The number of change lines of a sequence of files.
pub open spec fn files_change_count(fs: Seq<ChangedFileModel>) -> nat
    decreases fs.len(),
{
    if fs.len() == 0 {
        0
    } else {
        files_change_count(fs.drop_last()) + hunks_change_count(fs.last().hunks)
    }
}

/// A sequence of lines has no more change lines than lines.
pub proof fn lemma_change_line_count_bound(ls: Seq<Seq<char>>)
    ensures
        change_line_count(ls) <= ls.len(),
    decreases ls.len(),
{
    if ls.len() > 0 {
        lemma_change_line_count_bound(ls.drop_last());
    }
}

/// Hunks have no more change lines than lines.
pub proof fn lemma_hunks_change_count_bound(hs: Seq<DiffHunkModel>)
    ensures
        hunks_change_count(hs) <= hunks_line_count(hs),
    decreases hs.len(),
{
    if hs.len() > 0 {
        lemma_hunks_change_count_bound(hs.drop_last());
        lemma_change_line_count_bound(hs.last().lines);
    }
}

/// The files of a diff have no more change lines than hunk lines.
pub proof fn lemma_files_change_count_bound(fs: Seq<ChangedFileModel>)
    ensures
        files_change_count(fs) <= files_line_count(fs),
    decreases fs.len(),
{
    if fs.len() > 0 {
        lemma_files_change_count_bound(fs.drop_last());
        lemma_hunks_change_count_bound(fs.last().hunks);
    }
}

proof fn lemma_hunks_line_count_mono(hs: Seq<DiffHunkModel>, k: int)
    requires
        0 <= k <= hs.len(),
    ensures
        hunks_line_count(hs.take(k)) <= hunks_line_count(hs),
        hunks_change_count(hs.take(k)) <= hunks_change_count(hs),
    decreases hs.len() - k,
{
    if k < hs.len() {
        lemma_hunks_line_count_mono(hs, k + 1);
        assert(hs.take(k + 1).drop_last() =~= hs.take(k));
    } else {
        assert(hs.take(k) =~= hs);
    }
}

proof fn lemma_files_line_count_mono(fs: Seq<ChangedFileModel>, k: int)
    requires
        0 <= k <= fs.len(),
    ensures
        files_line_count(fs.take(k)) <= files_line_count(fs),
        files_change_count(fs.take(k)) <= files_change_count(fs),
    decreases fs.len() - k,
{
    if k < fs.len() {
        lemma_files_line_count_mono(fs, k + 1);
        assert(fs.take(k + 1).drop_last() =~= fs.take(k));
    } else {
        assert(fs.take(k) =~= fs);
    }
}

impl GitDiff {
    /// The total number of hunk lines of all changed files.
    pub fn total_lines(&self) -> (count: usize)
        requires
            files_line_count(self@.changed_files) <= usize::MAX,
        ensures
            count == files_line_count(self@.changed_files),
    {
        let ghost fs = self@.changed_files;
        let mut count: usize = 0;
        let mut i: usize = 0;
        while i < self.changed_files.len()
            invariant
                fs == self@.changed_files,
                files_line_count(fs) <= usize::MAX,
                i <= fs.len(),
                count == files_line_count(fs.take(i as int)),
            decreases self.changed_files.len() - i,
        {
            let file = &self.changed_files[i];
            let ghost hs = fs[i as int].hunks;
            proof {
                assert(fs.take(i + 1).drop_last() =~= fs.take(i as int));
                lemma_files_line_count_mono(fs, i + 1);
            }
            let mut j: usize = 0;
            while j < file.hunks.len()
                invariant
                    hs == hunk_views(file.hunks@),
                    j <= hs.len(),
                    count == files_line_count(fs.take(i as int)) + hunks_line_count(hs.take(j as int)),
                    files_line_count(fs.take(i as int)) + hunks_line_count(hs) <= usize::MAX,
                decreases file.hunks.len() - j,
            {
                proof {
                    assert(hs.take(j + 1).drop_last() =~= hs.take(j as int));
                    lemma_hunks_line_count_mono(hs, j + 1);
                    assert(hs[j as int].lines.len() == file.hunks@[j as int].lines@.len());
                }
                count = count + file.hunks[j].lines.len();
                j = j + 1;
            }
            proof {
                assert(hs.take(j as int) =~= hs);
            }
            i = i + 1;
        }
        proof {
            assert(fs.take(i as int) =~= fs);
        }
        count
    }

    /// The number of hunk lines that start with `+` or `-`.
    pub fn changed_lines(&self) -> (count: usize)
        requires
            files_line_count(self@.changed_files) <= usize::MAX,
        ensures
            count == files_change_count(self@.changed_files),
    {
        let ghost fs = self@.changed_files;
        proof {
            lemma_files_change_count_bound(fs);
        }
        let mut count: usize = 0;
        let mut i: usize = 0;
        while i < self.changed_files.len()
            invariant
                fs == self@.changed_files,
                files_change_count(fs) <= usize::MAX,
                i <= fs.len(),
                count == files_change_count(fs.take(i as int)),
            decreases self.changed_files.len() - i,
        {
            let file = &self.changed_files[i];
            let ghost hs = fs[i as int].hunks;
            proof {
                assert(fs.take(i + 1).drop_last() =~= fs.take(i as int));
                lemma_files_line_count_mono(fs, i + 1);
            }
            let mut j: usize = 0;
            while j < file.hunks.len()
                invariant
                    hs == hunk_views(file.hunks@),
                    j <= hs.len(),
                    count == files_change_count(fs.take(i as int)) + hunks_change_count(
                        hs.take(j as int),
                    ),
                    files_change_count(fs.take(i as int)) + hunks_change_count(hs) <= usize::MAX,
                decreases file.hunks.len() - j,
            {
                let hunk = &file.hunks[j];
                let ghost ls = hs[j as int].lines;
                proof {
                    assert(hs.take(j + 1).drop_last() =~= hs.take(j as int));
                    lemma_hunks_line_count_mono(hs, j + 1);
                }
                let mut k: usize = 0;
                while k < hunk.lines.len()
                    invariant
                        ls == string_views(hunk.lines@),
                        k <= ls.len(),
                        count == files_change_count(fs.take(i as int)) + hunks_change_count(
                            hs.take(j as int),
                        ) + change_line_count(ls.take(k as int)),
                        files_change_count(fs.take(i as int)) + hunks_change_count(hs.take(j as int))
                            + change_line_count(ls) <= usize::MAX,
                    decreases hunk.lines.len() - k,
                {
                    proof {
                        assert(ls.take(k + 1).drop_last() =~= ls.take(k as int));
                        lemma_change_line_count_mono(ls, k + 1);
                    }
                    let l = crate::text::chars_of(hunk.lines[k].as_str());
                    if starts_with_char(l.as_slice(), '+') || starts_with_char(l.as_slice(), '-') {
                        count = count + 1;
                    }
                    k = k + 1;
                }
                proof {
                    assert(ls.take(k as int) =~= ls);
                }
                j = j + 1;
            }
            proof {
                assert(hs.take(j as int) =~= hs);
            }
            i = i + 1;
        }
        proof {
            assert(fs.take(i as int) =~= fs);
        }
        count
    }
}

proof fn lemma_change_line_count_mono(ls: Seq<Seq<char>>, k: int)
    requires
        0 <= k <= ls.len(),
    ensures
        change_line_count(ls.take(k)) <= change_line_count(ls),
    decreases ls.len() - k,
{
    if k < ls.len() {
        lemma_change_line_count_mono(ls, k + 1);
        assert(ls.take(k + 1).drop_last() =~= ls.take(k));
    } else {
        assert(ls.take(k) =~= ls);
    }
}

/// Law: a diff never has more changed lines than lines.
pub proof fn law_changed_lines_at_most_total_lines(d: GitDiffModel)
    ensures
        files_change_count(d.changed_files) <= files_line_count(d.changed_files),
{
    lemma_files_change_count_bound(d.changed_files);
}

/// Law: the line count of two lists of files joined is the sum of their
/// line counts; no files have no lines.
pub proof fn law_total_lines_additive(a: Seq<ChangedFileModel>, b: Seq<ChangedFileModel>)
    ensures
        files_line_count(a + b) == files_line_count(a) + files_line_count(b),
        files_line_count(Seq::<ChangedFileModel>::empty()) == 0,
    decreases b.len(),
{
    if b.len() > 0 {
        law_total_lines_additive(a, b.drop_last());
        assert((a + b).drop_last() =~= a + b.drop_last());
        assert((a + b).last() == b.last());
    } else {
        assert(a + b =~= a);
    }
}


// ---------------------------------------------------------------------------
// Conversions between the two file representations
// ---------------------------------------------------------------------------

impl From<FileDiff> for ChangedFile {
    fn from(file_diff: FileDiff) -> (res: ChangedFile) {
        ChangedFile {
            path: file_diff.path,
            change_type: file_diff.change_type,
            hunks: file_diff.hunks,
            file_mode_change: None,
        }
    }
}

impl vstd::std_specs::convert::FromSpecImpl<FileDiff> for ChangedFile {
    open spec fn obeys_from_spec() -> bool {
        true
    }

    open spec fn from_spec(file_diff: FileDiff) -> ChangedFile {
        ChangedFile {
            path: file_diff.path,
            change_type: file_diff.change_type,
            hunks: file_diff.hunks,
            file_mode_change: None,
        }
    }
}

impl From<ChangedFile> for FileDiff {
    fn from(changed_file: ChangedFile) -> (res: FileDiff) {
        FileDiff {
            path: changed_file.path,
            old_path: None,
            change_type: changed_file.change_type,
            hunks: changed_file.hunks,
        }
    }
}

impl vstd::std_specs::convert::FromSpecImpl<ChangedFile> for FileDiff {
    open spec fn obeys_from_spec() -> bool {
        true
    }

    open spec fn from_spec(changed_file: ChangedFile) -> FileDiff {
        FileDiff {
            path: changed_file.path,
            old_path: None,
            change_type: changed_file.change_type,
            hunks: changed_file.hunks,
        }
    }
}

// ---------------------------------------------------------------------------
// Analysis results
// ---------------------------------------------------------------------------

/// A syntax node affected by a change.
#[derive(Debug)]
pub struct AffectedNode {
    pub node_type: String,
    pub name: String,
    pub range: (usize, usize),
    pub is_public: bool,
    pub content: Option<String>,
    pub line_range: (usize, usize),
    /// Kind of change: added, deleted or modified (and refinements).
    pub change_type: Option<String>,
    /// Added lines.
    pub additions: Option<Vec<String>>,
    /// Deleted lines.
    pub deletions: Option<Vec<String>>,
}

/// The view of optional lines.
pub open spec fn opt_lines_view(o: Option<Vec<String>>) -> Option<Seq<Seq<char>>> {
    match o {
        Some(v) => Some(string_views(v@)),
        None => None,
    }
}

/// The abstract value of an affected node.
pub struct AffectedNodeModel {
    pub node_type: Seq<char>,
    pub name: Seq<char>,
    pub range: (usize, usize),
    pub is_public: bool,
    pub content: Option<Seq<char>>,
    pub line_range: (usize, usize),
    pub change_type: Option<Seq<char>>,
    pub additions: Option<Seq<Seq<char>>>,
    pub deletions: Option<Seq<Seq<char>>>,
}

impl View for AffectedNode {
    type V = AffectedNodeModel;

    open spec fn view(&self) -> AffectedNodeModel {
        AffectedNodeModel {
            node_type: self.node_type@,
            name: self.name@,
            range: self.range,
            is_public: self.is_public,
            content: opt_string_view(self.content),
            line_range: self.line_range,
            change_type: opt_string_view(self.change_type),
            additions: opt_lines_view(self.additions),
            deletions: opt_lines_view(self.deletions),
        }
    }
}

/// The views of a sequence of nodes.
pub open spec fn node_views(v: Seq<AffectedNode>) -> Seq<AffectedNodeModel> {
    v.map_values(|n: AffectedNode| n@)
}

impl AffectedNode {
    /// A node of the given type, name, row range and visibility, with no
    /// content, line range `(0, 0)` and no change details.
    pub fn new(node_type: String, name: String, range: (usize, usize), is_public: bool) -> (res: Self)
        ensures
            res@ == (AffectedNodeModel {
                node_type: node_type@,
                name: name@,
                range,
                is_public,
                content: None,
                line_range: (0, 0),
                change_type: None,
                additions: None,
                deletions: None,
            }),
    {
        Self {
            node_type,
            name,
            range,
            is_public,
            content: None,
            line_range: (0, 0),
            change_type: None,
            additions: None,
            deletions: None,
        }
    }
}

/// The analysis of one file.
#[derive(Debug)]
pub struct FileAnalysis {
    pub path: String,
    pub language: String,
    pub change_type: ChangeType,
    pub affected_nodes: Vec<AffectedNode>,
    pub summary: Option<String>,
}

/// The abstract value of a file analysis.
pub struct FileAnalysisModel {
    pub path: Seq<char>,
    pub language: Seq<char>,
    pub change_type: ChangeType,
    pub affected_nodes: Seq<AffectedNodeModel>,
    pub summary: Option<Seq<char>>,
}

impl View for FileAnalysis {
    type V = FileAnalysisModel;

    open spec fn view(&self) -> FileAnalysisModel {
        FileAnalysisModel {
            path: self.path@,
            language: self.language@,
            change_type: self.change_type,
            affected_nodes: node_views(self.affected_nodes@),
            summary: opt_string_view(self.summary),
        }
    }
}

/// The views of a sequence of file analyses.
pub open spec fn analysis_views(v: Seq<FileAnalysis>) -> Seq<FileAnalysisModel> {
    v.map_values(|a: FileAnalysis| a@)
}

/// The kind of a change as a whole.
#[derive(Debug, Clone)]
pub enum ChangePattern {
    FeatureImplementation,
    BugFix,
    Refactoring,
    ModelChange,
    BehaviorChange,
    ConfigurationChange,
    MixedChange,
    /// A change pattern of one language, such as `RustMacroChange`.
    LanguageSpecificChange(String),
}

/// The abstract value of a change pattern.
pub enum ChangePatternModel {
    FeatureImplementation,
    BugFix,
    Refactoring,
    ModelChange,
    BehaviorChange,
    ConfigurationChange,
    MixedChange,
    LanguageSpecificChange(Seq<char>),
}

impl View for ChangePattern {
    type V = ChangePatternModel;

    open spec fn view(&self) -> ChangePatternModel {
        match self {
            ChangePattern::FeatureImplementation => ChangePatternModel::FeatureImplementation,
            ChangePattern::BugFix => ChangePatternModel::BugFix,
            ChangePattern::Refactoring => ChangePatternModel::Refactoring,
            ChangePattern::ModelChange => ChangePatternModel::ModelChange,
            ChangePattern::BehaviorChange => ChangePatternModel::BehaviorChange,
            ChangePattern::ConfigurationChange => ChangePatternModel::ConfigurationChange,
            ChangePattern::MixedChange => ChangePatternModel::MixedChange,
            ChangePattern::LanguageSpecificChange(s) => ChangePatternModel::LanguageSpecificChange(
                s@,
            ),
        }
    }
}

impl Default for ChangePattern {
    fn default() -> (res: Self)
        ensures
            res@ == ChangePatternModel::MixedChange,
    {
        ChangePattern::MixedChange
    }
}

/// The extent of a change.
#[derive(Debug, Clone, Copy, PartialEq, Eq, Structural)]
pub enum ChangeScope {
    Minor,
    Moderate,
    Major,
}

impl Default for ChangeScope {
    fn default() -> (res: Self)
        ensures
            res == ChangeScope::Minor,
    {
        ChangeScope::Minor
    }
}

/// Counts of changed structures and the overall kind and extent of a change.
#[derive(Debug, Clone)]
pub struct ChangeAnalysis {
    pub function_changes: usize,
    pub type_changes: usize,
    pub method_changes: usize,
    pub interface_changes: usize,
    pub other_changes: usize,
    pub change_pattern: ChangePattern,
    pub change_scope: ChangeScope,
}

impl Default for ChangeAnalysis {
    fn default() -> (res: Self)
        ensures
            res.function_changes == 0 && res.type_changes == 0 && res.method_changes == 0
                && res.interface_changes == 0 && res.other_changes == 0,
            res.change_pattern@ == ChangePatternModel::MixedChange,
            res.change_scope == ChangeScope::Minor,
    {
        ChangeAnalysis {
            function_changes: 0,
            type_changes: 0,
            method_changes: 0,
            interface_changes: 0,
            other_changes: 0,
            change_pattern: ChangePattern::MixedChange,
            change_scope: ChangeScope::Minor,
        }
    }
}

/// The abstract value of a change analysis.
pub struct ChangeAnalysisModel {
    pub function_changes: nat,
    pub type_changes: nat,
    pub method_changes: nat,
    pub interface_changes: nat,
    pub other_changes: nat,
    pub change_pattern: ChangePatternModel,
    pub change_scope: ChangeScope,
}

impl View for ChangeAnalysis {
    type V = ChangeAnalysisModel;

    open spec fn view(&self) -> ChangeAnalysisModel {
        ChangeAnalysisModel {
            function_changes: self.function_changes as nat,
            type_changes: self.type_changes as nat,
            method_changes: self.method_changes as nat,
            interface_changes: self.interface_changes as nat,
            other_changes: self.other_changes as nat,
            change_pattern: self.change_pattern@,
            change_scope: self.change_scope,
        }
    }
}

/// The complete analysis of a diff.
#[derive(Debug)]
pub struct DiffAnalysis {
    pub file_analyses: Vec<FileAnalysis>,
    pub overall_summary: String,
    pub change_analysis: ChangeAnalysis,
}

/// The abstract value of a diff analysis.
pub struct DiffAnalysisModel {
    pub file_analyses: Seq<FileAnalysisModel>,
    pub overall_summary: Seq<char>,
    pub change_analysis: ChangeAnalysisModel,
}

impl View for DiffAnalysis {
    type V = DiffAnalysisModel;

    open spec fn view(&self) -> DiffAnalysisModel {
        DiffAnalysisModel {
            file_analyses: analysis_views(self.file_analyses@),
            overall_summary: self.overall_summary@,
            change_analysis: self.change_analysis@,
        }
    }
}

/// The nodes affected by one hunk.
#[derive(Debug)]
pub struct HunkAstMapping {
    pub hunk: DiffHunk,
    pub nodes: Vec<AffectedNode>,
}

/// The hunks of one file with their affected nodes.
#[derive(Debug)]
pub struct FileDiffAstMapping {
    pub file_path: String,
    pub hunks: Vec<HunkAstMapping>,
}

/// The mapping of a whole diff onto syntax nodes, per file path.
#[derive(Debug)]
pub struct DiffAstMapping {
    pub files: Vec<(String, FileDiffAstMapping)>,
}

// ---------------------------------------------------------------------------
// Diff reading, hashing and line ranges
// ---------------------------------------------------------------------------

/// Parses Git diff output into a `GitDiff` with the reader of `parse_utils`
/// (see `parsed_diff`); a failure of that reader would be reported as a
/// parse error.
pub fn parse_git_diff(diff_text: &str) -> (res: Result<GitDiff, TreeSitterError>)
    ensures
        res matches Ok(d) && d@ == parsed_diff(diff_text@),
{
    match parse_git_diff_text(diff_text) {
        Ok(git_diff) => Ok(git_diff),
        Err(e) => {
            let mut v: Vec<char> = Vec::new();
            extend_str(&mut v, "Failed to parse diff: ");
            extend_string(&mut v, &e);
            Err(TreeSitterError::ParseError(to_string(&v)))
        },
    }
}

/// The polynomial hash of a byte sequence: starting from 0, each byte `b`
/// turns `h` into `h * 31 + b`, with 64-bit wrap-around.
pub open spec fn poly_hash(bs: Seq<u8>) -> u64
    decreases bs.len(),
{
    if bs.len() == 0 {
        0
    } else {
        poly_hash(bs.drop_last()).wrapping_mul(31).wrapping_add(bs.last() as u64)
    }
}

/// The content hash of a text: the polynomial hash of its UTF-8 bytes, in
/// lower-case hexadecimal without leading zeros.
pub fn calculate_hash(content: &str) -> (res: String)
    ensures
        res@ == hexadecimal(poly_hash(content.spec_bytes()) as nat),
{
    let bytes = content.as_bytes();
    let mut hash: u64 = 0;
    let mut i: usize = 0;
    while i < bytes.len()
        invariant
            bytes@ == content.spec_bytes(),
            i <= bytes@.len(),
            hash == poly_hash(bytes@.take(i as int)),
        decreases bytes.len() - i,
    {
        proof {
            assert(bytes@.take(i + 1).drop_last() =~= bytes@.take(i as int));
        }
        hash = hash.wrapping_mul(31).wrapping_add(bytes[i] as u64);
        i = i + 1;
    }
    proof {
        assert(bytes@.take(i as int) =~= bytes@);
    }
    let h = hex_chars(hash);
    to_string(&h)
}

/// `s` without its leading `-` and `+` characters.
pub open spec fn strip_signs(s: Seq<char>) -> Seq<char>
    decreases s.len(),
{
    if s.len() > 0 && (s[0] == '-' || s[0] == '+') {
        strip_signs(s.subrange(1, s.len() as int))
    } else {
        s
    }
}

/// The line range of a range text such as `-1,5`: leading signs are
/// dropped, an unparsable start or count is 0 and a missing count is 1.
pub open spec fn line_range_model(r: Seq<char>) -> LineRange {
    let parts = split_seq(strip_signs(r), seq![',']);
    let start = match parse_bounded(parts[0], u32::MAX as nat) {
        Some(v) => v as u32,
        None => 0,
    };
    let count = if parts.len() > 1 {
        match parse_bounded(parts[1], u32::MAX as nat) {
            Some(v) => v as u32,
            None => 0,
        }
    } else {
        1
    };
    LineRange { start, count }
}

/// Parses a line range such as `-1,5` (see `line_range_model`).
pub fn parse_line_range(range_str: &str) -> (res: LineRange)
    ensures
        res == line_range_model(range_str@),
{
    let r = chars_of(range_str);
    let mut k: usize = 0;
    assert(r@.subrange(0, r@.len() as int) =~= r@);
    while k < r.len() && (r[k] == '-' || r[k] == '+')
        invariant
            k <= r@.len(),
            strip_signs(r@) == strip_signs(r@.subrange(k as int, r@.len() as int)),
        decreases r.len() - k,
    {
        proof {
            let t = r@.subrange(k as int, r@.len() as int);
            assert(t.subrange(1, t.len() as int) =~= r@.subrange(k + 1, r@.len() as int));
        }
        k = k + 1;
    }
    let cleaned = slice_chars(r.as_slice(), k, r.len());
    proof {
        let t = r@.subrange(k as int, r@.len() as int);
        assert(strip_signs(t) == t);
    }
    let parts = split_char(cleaned.as_slice(), ',');
    assert(views(parts@)[0] == parts@[0]@);
    let start = match parse_u32(parts[0].as_slice()) {
        Some(v) => v,
        None => 0,
    };
    let count = if parts.len() > 1 {
        assert(views(parts@)[1] == parts@[1]@);
        match parse_u32(parts[1].as_slice()) {
            Some(v) => v,
            None => 0,
        }
    } else {
        1
    };
    LineRange { start, count }
}

} // verus!
