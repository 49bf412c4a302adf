//! Rule-based code review of diffs: the review model, the rule interface,
//! the rule engine and a quick line scan. The rule set is in `rules`.

pub mod rules;
pub mod analyzers;

use vstd::prelude::*;
use vstd::string::StringExecFns;
use crate::text::{
    chars_of, contains_str, opt_string_view, starts_with_char, string_views, to_string,
};
use crate::tree_sitter_analyzer::model::{
    ChangedFile, ChangedFileModel, DiffHunkModel, GitDiff, GitDiffModel, files_line_count,
    hunks_line_count, hunk_views, file_views,
};
use crate::config_management::settings::TreeSitterConfig;
use crate::tallies::{count_in, first_appearances, lemma_count_in_bound, tally, tally_view};

verus! {

/// Rule categories.
#[derive(Debug, Clone, Copy, PartialEq, Eq, Hash, Structural)]
pub enum RuleCategory {
    /// Code style.
    Style,
    /// Security.
    Security,
    /// Performance.
    Performance,
    /// Code complexity.
    Complexity,
    /// Best practices.
    BestPractices,
    /// Potential bugs.
    Bugs,
}

/// Severity of a finding.
#[derive(Debug, Clone, Copy, PartialEq, Eq, Hash, Structural)]
pub enum Severity {
    /// A serious problem to fix at once.
    Error,
    /// A problem that should be fixed.
    Warning,
    /// Something that could be improved.
    Info,
    /// A small suggestion.
    Hint,
}

/// Depth of an analysis.
#[derive(Debug, Clone, Copy, PartialEq, Eq, Hash, Structural)]
pub enum AnalysisDepth {
    Basic,
    Normal,
    Deep,
}

// ---------------------------------------------------------------------------
// Numbered lines of a diff
// ---------------------------------------------------------------------------

/// A hunk line of a diff with its file and its 1-based number among the
/// hunk lines of that file.
pub struct LineEntry {
    pub path: Seq<char>,
    pub number: nat,
    pub text: Seq<char>,
}

/// All lines of a sequence of hunks, in order.
pub open spec fn hunks_lines(hs: Seq<DiffHunkModel>) -> Seq<Seq<char>>
    decreases hs.len(),
{
    if hs.len() == 0 {
        seq![]
    } else {
        hunks_lines(hs.drop_last()) + hs.last().lines
    }
}

/// The numbered hunk lines of one file.
pub open spec fn file_entries(f: ChangedFileModel) -> Seq<LineEntry> {
    Seq::new(
        hunks_lines(f.hunks).len(),
        |k: int| LineEntry { path: f.path, number: (k + 1) as nat, text: hunks_lines(f.hunks)[k] },
    )
}

/// The numbered hunk lines of a sequence of files, file after file.
pub open spec fn diff_entries(fs: Seq<ChangedFileModel>) -> Seq<LineEntry>
    decreases fs.len(),
{
    if fs.len() == 0 {
        seq![]
    } else {
        diff_entries(fs.drop_last()) + file_entries(fs.last())
    }
}

/// A numbered hunk line.
pub struct DiffLine {
    pub path: String,
    pub number: usize,
    pub text: String,
}

impl View for DiffLine {
    type V = LineEntry;

    open spec fn view(&self) -> LineEntry {
        LineEntry { path: self.path@, number: self.number as nat, text: self.text@ }
    }
}

/// The views of a sequence of numbered lines.
pub open spec fn line_views(v: Seq<DiffLine>) -> Seq<LineEntry> {
    v.map_values(|l: DiffLine| l@)
}

proof fn lemma_hunks_lines_len(hs: Seq<DiffHunkModel>)
    ensures
        hunks_lines(hs).len() == hunks_line_count(hs),
    decreases hs.len(),
{
    if hs.len() > 0 {
        lemma_hunks_lines_len(hs.drop_last());
    }
}

proof fn lemma_files_line_count_prefix(fs: Seq<ChangedFileModel>, k: int)
    requires
        0 <= k < fs.len(),
    ensures
        files_line_count(fs.take(k)) + hunks_line_count(fs[k].hunks) <= files_line_count(fs),
    decreases fs.len() - k,
{
    if k + 1 < fs.len() {
        lemma_files_line_count_prefix(fs, k + 1);
        assert(fs.take(k + 2).drop_last() =~= fs.take(k + 1));
        assert(fs.take(k + 1).drop_last() =~= fs.take(k));
        assert(fs.take(k + 1).last() == fs[k]);
    } else {
        assert(fs.take(k + 1) =~= fs);
        assert(fs.take(k + 1).drop_last() =~= fs.take(k));
    }
}

/// Lists the hunk lines of a diff with their files and per-file numbers.
pub fn numbered_lines(diff: &GitDiff) -> (res: Vec<DiffLine>)
    requires
        files_line_count(diff@.changed_files) < usize::MAX,
    ensures
        line_views(res@) == diff_entries(diff@.changed_files),
{
    let ghost fs = diff@.changed_files;
    let mut res: Vec<DiffLine> = Vec::new();
    let mut i: usize = 0;
    assert(line_views(res@) =~= diff_entries(fs.take(0)));
    while i < diff.changed_files.len()
        invariant
            fs == diff@.changed_files,
            files_line_count(fs) < usize::MAX,
            i <= fs.len(),
            line_views(res@) == diff_entries(fs.take(i as int)),
        decreases diff.changed_files.len() - i,
    {
        let file = &diff.changed_files[i];
        let ghost f = fs[i as int];
        let ghost base = line_views(res@);
        proof {
            lemma_files_line_count_prefix(fs, i as int);
            lemma_hunks_lines_len(f.hunks);
        }
        let mut number: usize = 0;
        let mut j: usize = 0;
        while j < file.hunks.len()
            invariant
                f == file@,
                f.hunks == hunk_views(file.hunks@),
                j <= f.hunks.len(),
                hunks_lines(f.hunks).len() < usize::MAX,
                number == hunks_lines(f.hunks.take(j as int)).len(),
                line_views(res@) == base + file_entries(f).take(number as int),
            decreases file.hunks.len() - j,
        {
            let hunk = &file.hunks[j];
            let ghost hl = f.hunks[j as int].lines;
            proof {
                assert(f.hunks.take(j + 1).drop_last() =~= f.hunks.take(j as int));
                assert(hunks_lines(f.hunks.take(j + 1)) == hunks_lines(f.hunks.take(j as int)) + hl);
                lemma_hunks_lines_prefix(f.hunks, j + 1);
            }
            let mut k: usize = 0;
            while k < hunk.lines.len()
                invariant
                    f == file@,
                    hl == string_views(hunk.lines@),
                    k <= hl.len(),
                    hunks_lines(f.hunks).len() < usize::MAX,
                    hunks_lines(f.hunks.take(j as int)) + hl == hunks_lines(f.hunks.take(j + 1)),
                    hunks_lines(f.hunks.take(j + 1)).len() <= hunks_lines(f.hunks).len(),
                    hunks_lines(f.hunks.take(j + 1)) =~= hunks_lines(f.hunks).take(
                        hunks_lines(f.hunks.take(j + 1)).len() as int,
                    ),
                    number == hunks_lines(f.hunks.take(j as int)).len() + k,
                    line_views(res@) == base + file_entries(f).take(number as int),
                decreases hunk.lines.len() - k,
            {
                number = number + 1;
                let line = DiffLine {
                    path: file.path.clone(),
                    number,
                    text: hunk.lines[k].clone(),
                };
                let ghost old_res = line_views(res@);
                let ghost line_v = line@;
                res.push(line);
                proof {
                    let all = hunks_lines(f.hunks);
                    let pj = hunks_lines(f.hunks.take(j as int));
                    let pj1 = hunks_lines(f.hunks.take(j + 1));
                    assert(pj1[number - 1] == (pj + hl)[number - 1]);
                    assert((pj + hl)[number - 1] == hl[k as int]);
                    assert(all.take(pj1.len() as int)[number - 1] == all[number - 1]);
                    assert(all[number - 1] == hl[k as int]);
                    assert(file_entries(f)[number - 1] == line_v);
                    assert(file_entries(f).take(number as int) =~= file_entries(f).take(
                        number - 1,
                    ).push(line_v));
                    assert(line_views(res@) =~= old_res.push(line_v));
                    assert(line_views(res@) =~= base + file_entries(f).take(number as int));
                }
                k = k + 1;
            }
            j = j + 1;
        }
        proof {
            assert(f.hunks.take(j as int) =~= f.hunks);
            assert(file_entries(f).take(number as int) =~= file_entries(f));
            assert(fs.take(i + 1).drop_last() =~= fs.take(i as int));
        }
        i = i + 1;
    }
    proof {
        assert(fs.take(i as int) =~= fs);
    }
    res
}

proof fn lemma_hunks_lines_prefix(hs: Seq<DiffHunkModel>, k: int)
    requires
        0 <= k <= hs.len(),
    ensures
        hunks_lines(hs.take(k)).len() <= hunks_lines(hs).len(),
        hunks_lines(hs.take(k)) =~= hunks_lines(hs).take(hunks_lines(hs.take(k)).len() as int),
    decreases hs.len() - k,
{
    if k < hs.len() {
        lemma_hunks_lines_prefix(hs, k + 1);
        assert(hs.take(k + 1).drop_last() =~= hs.take(k));
        let a = hunks_lines(hs.take(k));
        let b = hunks_lines(hs.take(k + 1));
        assert(b == a + hs[k].lines);
        assert(a =~= b.take(a.len() as int));
    } else {
        assert(hs.take(k) =~= hs);
    }
}


// ---------------------------------------------------------------------------
// Review model
// ---------------------------------------------------------------------------

/// A place in the code.
#[derive(Debug, Clone)]
pub struct CodeLocation {
    /// File path.
    pub file_path: String,
    /// First line (1-based).
    pub start_line: usize,
    /// Last line (1-based, inclusive).
    pub end_line: usize,
    /// First column, if known.
    pub start_column: Option<usize>,
    /// Last column, if known.
    pub end_column: Option<usize>,
}

/// The abstract value of a location.
pub struct LocationModel {
    pub file_path: Seq<char>,
    pub start_line: usize,
    pub end_line: usize,
    pub start_column: Option<usize>,
    pub end_column: Option<usize>,
}

impl View for CodeLocation {
    type V = LocationModel;

    open spec fn view(&self) -> LocationModel {
        LocationModel {
            file_path: self.file_path@,
            start_line: self.start_line,
            end_line: self.end_line,
            start_column: self.start_column,
            end_column: self.end_column,
        }
    }
}

/// A review finding.
#[derive(Debug, Clone)]
pub struct Issue {
    /// Unique identifier.
    pub id: String,
    /// Title.
    pub title: String,
    /// Description.
    pub description: String,
    /// Location in the code.
    pub location: CodeLocation,
    /// Severity.
    pub severity: Severity,
    /// Category.
    pub category: RuleCategory,
    /// Offending code.
    pub code_snippet: Option<String>,
    /// How to fix it.
    pub suggestion: Option<String>,
    /// A longer explanation.
    pub explanation: Option<String>,
}

/// The abstract value of a finding.
pub struct IssueModel {
    pub id: Seq<char>,
    pub title: Seq<char>,
    pub description: Seq<char>,
    pub location: LocationModel,
    pub severity: Severity,
    pub category: RuleCategory,
    pub code_snippet: Option<Seq<char>>,
    pub suggestion: Option<Seq<char>>,
    pub explanation: Option<Seq<char>>,
}

impl View for Issue {
    type V = IssueModel;

    open spec fn view(&self) -> IssueModel {
        IssueModel {
            id: self.id@,
            title: self.title@,
            description: self.description@,
            location: self.location@,
            severity: self.severity,
            category: self.category,
            code_snippet: opt_string_view(self.code_snippet),
            suggestion: opt_string_view(self.suggestion),
            explanation: opt_string_view(self.explanation),
        }
    }
}

/// The views of a sequence of findings.
pub open spec fn issue_views(v: Seq<Issue>) -> Seq<IssueModel> {
    v.map_values(|i: Issue| i@)
}

fn copy_opt_string(o: &Option<String>) -> (res: Option<String>)
    ensures
        opt_string_view(res) == opt_string_view(*o),
{
    match o {
        Some(s) => Some(s.clone()),
        None => None,
    }
}

impl CodeLocation {
    /// A copy of this location.
    pub fn duplicate(&self) -> (res: CodeLocation)
        ensures
            res@ == self@,
    {
        CodeLocation {
            file_path: self.file_path.clone(),
            start_line: self.start_line,
            end_line: self.end_line,
            start_column: self.start_column,
            end_column: self.end_column,
        }
    }
}

impl Issue {
    /// A copy of this finding.
    pub fn duplicate(&self) -> (res: Issue)
        ensures
            res@ == self@,
    {
        Issue {
            id: self.id.clone(),
            title: self.title.clone(),
            description: self.description.clone(),
            location: self.location.duplicate(),
            severity: self.severity,
            category: self.category,
            code_snippet: copy_opt_string(&self.code_snippet),
            suggestion: copy_opt_string(&self.suggestion),
            explanation: copy_opt_string(&self.explanation),
        }
    }
}

/// The summary of a review.
#[derive(Debug, Clone)]
pub struct ReviewSummary {
    /// Number of files with findings.
    pub files_count: usize,
    /// Number of hunk lines.
    pub lines_count: usize,
    /// Number of changed hunk lines.
    pub changed_lines_count: usize,
    /// Findings per severity, in order of first appearance.
    pub issues_by_severity: Vec<(Severity, usize)>,
    /// Findings per category, in order of first appearance.
    pub issues_by_category: Vec<(RuleCategory, usize)>,
    /// Overall score (0-100).
    pub score: Option<u8>,
    /// Overall verdict.
    pub overview: String,
}

/// The result of a review.
#[derive(Debug, Clone)]
pub struct ReviewResult {
    /// All findings.
    pub issues: Vec<Issue>,
    /// Summary.
    pub summary: ReviewSummary,
    /// Findings per file, in order of first appearance.
    pub issues_by_file: Vec<(String, Vec<Issue>)>,
}

/// What a rule sees of the change under review.
pub struct RuleContext<'a> {
    /// The diff under review.
    pub diff: &'a GitDiff,
    /// Original file contents, by path.
    pub file_contents: Vec<(String, String)>,
    /// Working directory.
    pub work_dir: String,
    /// Analysis depth.
    pub depth: AnalysisDepth,
    /// Focus areas.
    pub focus: Vec<RuleCategory>,
}

/// A review rule.
pub trait Rule {
    /// The rule's name.
    spec fn rule_name(&self) -> Seq<char>;

    /// The rule's category.
    spec fn rule_category(&self) -> RuleCategory;

    /// The rule's severity.
    spec fn rule_severity(&self) -> Severity;

    /// Whether the rule applies to a language.
    spec fn applies_to(&self, language: Seq<char>) -> bool;

    /// The findings of the rule on a diff.
    spec fn rule_issues(&self, diff: GitDiffModel) -> Seq<IssueModel>;

    /// The rule's name.
    fn name(&self) -> (res: &str)
        ensures
            res@ == self.rule_name(),
    ;

    /// The rule's category.
    fn category(&self) -> (res: RuleCategory)
        ensures
            res == self.rule_category(),
    ;

    /// Applies the rule to the change under review.
    fn apply(&self, context: &RuleContext) -> (res: Vec<Issue>)
        requires
            files_line_count(context.diff@.changed_files) < usize::MAX,
        ensures
            issue_views(res@) == self.rule_issues(context.diff@),
    ;

    /// The rule's severity.
    fn severity(&self) -> (res: Severity)
        ensures
            res == self.rule_severity(),
    ;

    /// Whether the rule applies to a language.
    fn is_applicable(&self, language: &str) -> (res: bool)
        ensures
            res == self.applies_to(language@),
    ;
}

// ---------------------------------------------------------------------------
// Quick line scan
// ---------------------------------------------------------------------------

/// A finding of the quick line scan.
#[derive(Debug, Clone)]
pub struct SimpleReviewResult {
    /// Title.
    pub title: String,
    /// Content.
    pub content: String,
    /// Severity.
    pub severity: Severity,
}

/// The abstract value of a simple finding.
pub struct SimpleFinding {
    pub title: Seq<char>,
    pub content: Seq<char>,
    pub severity: Severity,
}

impl View for SimpleReviewResult {
    type V = SimpleFinding;

    open spec fn view(&self) -> SimpleFinding {
        SimpleFinding { title: self.title@, content: self.content@, severity: self.severity }
    }
}

/// The views of a sequence of simple findings.
pub open spec fn simple_views(v: Seq<SimpleReviewResult>) -> Seq<SimpleFinding> {
    v.map_values(|r: SimpleReviewResult| r@)
}

/// The finding for a line that may hold a hard-coded credential.
pub open spec fn credential_finding() -> SimpleFinding {
    SimpleFinding {
        title: "检测到硬编码凭证"@,
        content: "代码中可能包含硬编码的敏感信息，建议使用环境变量或配置文件存储"@,
        severity: Severity::Error,
    }
}

/// The finding for a line longer than 100 bytes.
pub open spec fn long_line_finding() -> SimpleFinding {
    SimpleFinding {
        title: "行长度过长"@,
        content: "检测到长度超过100字符的行，建议拆分以提高可读性"@,
        severity: Severity::Info,
    }
}

/// The finding reported when nothing else is found.
pub open spec fn all_good_finding() -> SimpleFinding {
    SimpleFinding {
        title: "代码质量良好"@,
        content: "未发现明显问题，代码质量良好"@,
        severity: Severity::Info,
    }
}

/// An added line that names a password, secret, token or API key.
pub open spec fn mentions_credential(text: Seq<char>) -> bool {
    text.len() > 0 && text[0] == '+' && (crate::text::contains_seq(text, "password"@)
        || crate::text::contains_seq(text, "secret"@) || crate::text::contains_seq(text, "token"@)
        || crate::text::contains_seq(text, "api_key"@))
}

/// An added line longer than 100 bytes.
pub open spec fn is_long_added_line(text: Seq<char>) -> bool {
    text.len() > 0 && text[0] == '+' && crate::text::byte_len(text) > 100
}

/// The findings of the quick line scan on one line.
pub open spec fn simple_line_findings(text: Seq<char>) -> Seq<SimpleFinding> {
    (if mentions_credential(text) {
        seq![credential_finding()]
    } else {
        seq![]
    }) + (if is_long_added_line(text) {
        seq![long_line_finding()]
    } else {
        seq![]
    })
}

/// The findings of the quick line scan on a sequence of lines.
pub open spec fn simple_findings(es: Seq<LineEntry>) -> Seq<SimpleFinding>
    decreases es.len(),
{
    if es.len() == 0 {
        seq![]
    } else {
        simple_findings(es.drop_last()) + simple_line_findings(es.last().text)
    }
}

/// The findings of the quick line scan on a diff.
pub open spec fn simple_review(d: GitDiffModel) -> Seq<SimpleFinding> {
    let found = simple_findings(diff_entries(d.changed_files));
    if found.len() == 0 {
        seq![all_good_finding()]
    } else {
        found
    }
}

fn simple_result(title: &str, content: &str, severity: Severity) -> (res: SimpleReviewResult)
    ensures
        res@ == (SimpleFinding { title: title@, content: content@, severity }),
{
    SimpleReviewResult {
        title: String::from_str(title),
        content: String::from_str(content),
        severity,
    }
}

/// A quick scan of the added lines of a diff.
pub struct SimpleReviewer {
    /// Settings.
    pub config: TreeSitterConfig,
}

impl SimpleReviewer {
    /// A scanner with the given settings.
    pub fn new(config: TreeSitterConfig) -> (res: Self)
        ensures
            res.config == config,
    {
        Self { config }
    }

    /// Reviews the added lines of a diff: lines that name a password, secret,
    /// token or API key, and lines longer than 100 bytes. When nothing is
    /// found the review says that the code looks good.
    pub fn review(&self, diff: &GitDiff) -> (res: Vec<SimpleReviewResult>)
        requires
            files_line_count(diff@.changed_files) < usize::MAX,
        ensures
            simple_views(res@) == simple_review(diff@),
    {
        let lines = numbered_lines(diff);
        let ghost es = line_views(lines@);
        let mut results: Vec<SimpleReviewResult> = Vec::new();
        let mut i: usize = 0;
        while i < lines.len()
            invariant
                es == line_views(lines@),
                i <= es.len(),
                simple_views(results@) == simple_findings(es.take(i as int)),
            decreases lines.len() - i,
        {
            let text = chars_of(lines[i].text.as_str());
            let ghost before = simple_views(results@);
            proof {
                assert(es.take(i + 1).drop_last() =~= es.take(i as int));
                assert(es[i as int].text == text@);
            }
            let added = starts_with_char(text.as_slice(), '+');
            if added && (contains_str(text.as_slice(), "password") || contains_str(
                text.as_slice(),
                "secret",
            ) || contains_str(text.as_slice(), "token") || contains_str(
                text.as_slice(),
                "api_key",
            )) {
                results.push(
                    simple_result(
                        "检测到硬编码凭证",
                        "代码中可能包含硬编码的敏感信息，建议使用环境变量或配置文件存储",
                        Severity::Error,
                    ),
                );
            }
            let ghost mid = simple_views(results@);
            proof {
                assert(mid =~= before + (if mentions_credential(text@) {
                    seq![credential_finding()]
                } else {
                    seq![]
                }));
            }
            if added && crate::text::chars_byte_len(text.as_slice()) > 100 {
                results.push(
                    simple_result(
                        "行长度过长",
                        "检测到长度超过100字符的行，建议拆分以提高可读性",
                        Severity::Info,
                    ),
                );
            }
            proof {
                assert(simple_views(results@) =~= mid + (if is_long_added_line(text@) {
                    seq![long_line_finding()]
                } else {
                    seq![]
                }));
            }
            i = i + 1;
        }
        proof {
            assert(es.take(i as int) =~= es);
        }
        if results.len() == 0 {
            results.push(
                simple_result("代码质量良好", "未发现明显问题，代码质量良好", Severity::Info),
            );
            assert(simple_views(results@) =~= seq![all_good_finding()]);
        }
        results
    }
}


// ---------------------------------------------------------------------------
// Tallies
// ---------------------------------------------------------------------------

/// The severities of a sequence of findings.
pub open spec fn severities(v: Seq<IssueModel>) -> Seq<Severity> {
    v.map_values(|i: IssueModel| i.severity)
}

/// The categories of a sequence of findings.
pub open spec fn categories(v: Seq<IssueModel>) -> Seq<RuleCategory> {
    v.map_values(|i: IssueModel| i.category)
}

/// The file paths of a sequence of findings.
pub open spec fn issue_paths(v: Seq<IssueModel>) -> Seq<Seq<char>> {
    v.map_values(|i: IssueModel| i.location.file_path)
}

/// The findings of `v` located in file `p`, in order.
pub open spec fn issues_at_path(v: Seq<IssueModel>, p: Seq<char>) -> Seq<IssueModel>
    decreases v.len(),
{
    if v.len() == 0 {
        seq![]
    } else {
        issues_at_path(v.drop_last(), p) + if v.last().location.file_path == p {
            seq![v.last()]
        } else {
            seq![]
        }
    }
}

fn distinct_severities(v: &Vec<Issue>) -> (res: Vec<Severity>)
    ensures
        res@ == first_appearances(severities(issue_views(v@))),
{
    let ghost ks = severities(issue_views(v@));
    let mut res: Vec<Severity> = Vec::new();
    let mut i: usize = 0;
    while i < v.len()
        invariant
            ks == severities(issue_views(v@)),
            i <= ks.len(),
            res@ == first_appearances(ks.take(i as int)),
        decreases v.len() - i,
    {
        let k = v[i].severity;
        proof {
            assert(ks.take(i + 1).drop_last() =~= ks.take(i as int));
            assert(ks.take(i + 1).last() == k);
        }
        let mut found = false;
        let mut j: usize = 0;
        while j < res.len()
            invariant
                j <= res@.len(),
                found == exists|m: int| 0 <= m < j && res@[m] == k,
            decreases res.len() - j,
        {
            if res[j] == k {
                found = true;
            }
            j = j + 1;
        }
        proof {
            if found {
                let m = choose|m: int| 0 <= m < j && res@[m] == k;
                assert(res@.contains(k));
            } else {
                assert(!res@.contains(k));
            }
        }
        if !found {
            res.push(k);
        }
        i = i + 1;
    }
    proof {
        assert(ks.take(i as int) =~= ks);
    }
    res
}

fn distinct_categories(v: &Vec<Issue>) -> (res: Vec<RuleCategory>)
    ensures
        res@ == first_appearances(categories(issue_views(v@))),
{
    let ghost ks = categories(issue_views(v@));
    let mut res: Vec<RuleCategory> = Vec::new();
    let mut i: usize = 0;
    while i < v.len()
        invariant
            ks == categories(issue_views(v@)),
            i <= ks.len(),
            res@ == first_appearances(ks.take(i as int)),
        decreases v.len() - i,
    {
        let k = v[i].category;
        proof {
            assert(ks.take(i + 1).drop_last() =~= ks.take(i as int));
            assert(ks.take(i + 1).last() == k);
        }
        let mut found = false;
        let mut j: usize = 0;
        while j < res.len()
            invariant
                j <= res@.len(),
                found == exists|m: int| 0 <= m < j && res@[m] == k,
            decreases res.len() - j,
        {
            if res[j] == k {
                found = true;
            }
            j = j + 1;
        }
        proof {
            if found {
                let m = choose|m: int| 0 <= m < j && res@[m] == k;
                assert(res@.contains(k));
            } else {
                assert(!res@.contains(k));
            }
        }
        if !found {
            res.push(k);
        }
        i = i + 1;
    }
    proof {
        assert(ks.take(i as int) =~= ks);
    }
    res
}

fn count_severity(v: &Vec<Issue>, k: Severity) -> (res: usize)
    ensures
        res == count_in(severities(issue_views(v@)), k),
{
    let ghost ks = severities(issue_views(v@));
    let mut n: usize = 0;
    let mut i: usize = 0;
    while i < v.len()
        invariant
            ks == severities(issue_views(v@)),
            i <= ks.len(),
            n == count_in(ks.take(i as int), k),
        decreases v.len() - i,
    {
        proof {
            assert(ks.take(i + 1).drop_last() =~= ks.take(i as int));
            lemma_count_in_bound(ks.take(i as int), k);
        }
        if v[i].severity == k {
            n = n + 1;
        }
        i = i + 1;
    }
    proof {
        assert(ks.take(i as int) =~= ks);
    }
    n
}

fn count_category(v: &Vec<Issue>, k: RuleCategory) -> (res: usize)
    ensures
        res == count_in(categories(issue_views(v@)), k),
{
    let ghost ks = categories(issue_views(v@));
    let mut n: usize = 0;
    let mut i: usize = 0;
    while i < v.len()
        invariant
            ks == categories(issue_views(v@)),
            i <= ks.len(),
            n == count_in(ks.take(i as int), k),
        decreases v.len() - i,
    {
        proof {
            assert(ks.take(i + 1).drop_last() =~= ks.take(i as int));
            lemma_count_in_bound(ks.take(i as int), k);
        }
        if v[i].category == k {
            n = n + 1;
        }
        i = i + 1;
    }
    proof {
        assert(ks.take(i as int) =~= ks);
    }
    n
}

fn tally_severities(v: &Vec<Issue>) -> (res: Vec<(Severity, usize)>)
    ensures
        tally_view(res@) == tally(severities(issue_views(v@))),
{
    let keys = distinct_severities(v);
    let ghost ks = severities(issue_views(v@));
    let mut res: Vec<(Severity, usize)> = Vec::new();
    let mut i: usize = 0;
    while i < keys.len()
        invariant
            keys@ == first_appearances(ks),
            ks == severities(issue_views(v@)),
            i <= keys@.len(),
            tally_view(res@) == tally(ks).take(i as int),
        decreases keys.len() - i,
    {
        let n = count_severity(v, keys[i]);
        let ghost old = tally_view(res@);
        res.push((keys[i], n));
        proof {
            assert(tally_view(res@) =~= old.push((keys@[i as int], n as nat)));
            assert(tally(ks)[i as int] == (keys@[i as int], count_in(ks, keys@[i as int])));
            assert(tally_view(res@) =~= tally(ks).take(i + 1));
        }
        i = i + 1;
    }
    proof {
        assert(tally(ks).take(i as int) =~= tally(ks));
    }
    res
}

fn tally_categories(v: &Vec<Issue>) -> (res: Vec<(RuleCategory, usize)>)
    ensures
        tally_view(res@) == tally(categories(issue_views(v@))),
{
    let keys = distinct_categories(v);
    let ghost ks = categories(issue_views(v@));
    let mut res: Vec<(RuleCategory, usize)> = Vec::new();
    let mut i: usize = 0;
    while i < keys.len()
        invariant
            keys@ == first_appearances(ks),
            ks == categories(issue_views(v@)),
            i <= keys@.len(),
            tally_view(res@) == tally(ks).take(i as int),
        decreases keys.len() - i,
    {
        let n = count_category(v, keys[i]);
        let ghost old = tally_view(res@);
        res.push((keys[i], n));
        proof {
            assert(tally_view(res@) =~= old.push((keys@[i as int], n as nat)));
            assert(tally(ks)[i as int] == (keys@[i as int], count_in(ks, keys@[i as int])));
            assert(tally_view(res@) =~= tally(ks).take(i + 1));
        }
        i = i + 1;
    }
    proof {
        assert(tally(ks).take(i as int) =~= tally(ks));
    }
    res
}


fn distinct_paths(v: &Vec<Issue>) -> (res: Vec<String>)
    ensures
        string_views(res@) == first_appearances(issue_paths(issue_views(v@))),
{
    let ghost ks = issue_paths(issue_views(v@));
    let mut res: Vec<String> = Vec::new();
    let mut i: usize = 0;
    while i < v.len()
        invariant
            ks == issue_paths(issue_views(v@)),
            i <= ks.len(),
            string_views(res@) == first_appearances(ks.take(i as int)),
        decreases v.len() - i,
    {
        let k = &v[i].location.file_path;
        proof {
            assert(ks.take(i + 1).drop_last() =~= ks.take(i as int));
            assert(ks.take(i + 1).last() == k@);
        }
        let mut found = false;
        let mut j: usize = 0;
        while j < res.len()
            invariant
                j <= res@.len(),
                found == exists|m: int| 0 <= m < j && res@[m]@ == k@,
            decreases res.len() - j,
        {
            if res[j] == *k {
                found = true;
            }
            j = j + 1;
        }
        let ghost sv = string_views(res@);
        proof {
            if found {
                let m = choose|m: int| 0 <= m < j && res@[m]@ == k@;
                assert(sv[m] == k@);
                assert(sv.contains(k@));
            } else {
                assert forall|m: int| 0 <= m < sv.len() implies sv[m] != k@ by {
                    assert(sv[m] == res@[m]@);
                }
                assert(!sv.contains(k@));
            }
        }
        if !found {
            res.push(k.clone());
            assert(string_views(res@) =~= sv.push(k@));
        }
        i = i + 1;
    }
    proof {
        assert(ks.take(i as int) =~= ks);
    }
    res
}

fn collect_at_path(v: &Vec<Issue>, p: &String) -> (res: Vec<Issue>)
    ensures
        issue_views(res@) == issues_at_path(issue_views(v@), p@),
{
    let ghost iv = issue_views(v@);
    let mut res: Vec<Issue> = Vec::new();
    let mut i: usize = 0;
    while i < v.len()
        invariant
            iv == issue_views(v@),
            i <= iv.len(),
            issue_views(res@) == issues_at_path(iv.take(i as int), p@),
        decreases v.len() - i,
    {
        proof {
            assert(iv.take(i + 1).drop_last() =~= iv.take(i as int));
            assert(iv.take(i + 1).last() == v@[i as int]@);
        }
        let ghost old = issue_views(res@);
        if v[i].location.file_path == *p {
            let d = v[i].duplicate();
            res.push(d);
            assert(issue_views(res@) =~= old.push(v@[i as int]@));
        }
        i = i + 1;
    }
    proof {
        assert(iv.take(i as int) =~= iv);
    }
    res
}

/// The findings grouped by file, in order of first appearance of the file.
pub open spec fn group_by_file(v: Seq<IssueModel>) -> Seq<(Seq<char>, Seq<IssueModel>)> {
    first_appearances(issue_paths(v)).map_values(|p: Seq<char>| (p, issues_at_path(v, p)))
}

/// The views of file groups.
pub open spec fn group_views(g: Seq<(String, Vec<Issue>)>) -> Seq<(Seq<char>, Seq<IssueModel>)> {
    g.map_values(|e: (String, Vec<Issue>)| (e.0@, issue_views(e.1@)))
}

fn group_issues_by_file(v: &Vec<Issue>) -> (res: Vec<(String, Vec<Issue>)>)
    ensures
        group_views(res@) == group_by_file(issue_views(v@)),
{
    let paths = distinct_paths(v);
    let ghost iv = issue_views(v@);
    let mut res: Vec<(String, Vec<Issue>)> = Vec::new();
    let mut i: usize = 0;
    while i < paths.len()
        invariant
            iv == issue_views(v@),
            string_views(paths@) == first_appearances(issue_paths(iv)),
            i <= paths@.len(),
            group_views(res@) == group_by_file(iv).take(i as int),
        decreases paths.len() - i,
    {
        let group = collect_at_path(v, &paths[i]);
        let ghost old = group_views(res@);
        let ghost entry = (paths@[i as int]@, issue_views(group@));
        res.push((paths[i].clone(), group));
        proof {
            assert(string_views(paths@)[i as int] == paths@[i as int]@);
            assert(group_views(res@) =~= old.push(entry));
            assert(group_by_file(iv)[i as int] == entry);
            assert(group_views(res@) =~= group_by_file(iv).take(i + 1));
        }
        i = i + 1;
    }
    proof {
        assert(group_by_file(iv).take(i as int) =~= group_by_file(iv));
    }
    res
}

// ---------------------------------------------------------------------------
// Rule engine
// ---------------------------------------------------------------------------

/// Settings of the rule engine.
#[derive(Debug, Clone)]
pub struct RuleConfig {
    /// The categories whose rules run, in order.
    pub enabled_categories: Vec<RuleCategory>,
    /// Analysis depth.
    pub depth: AnalysisDepth,
    /// Where custom rules live.
    pub custom_rules_path: Option<String>,
    /// Names of rules to skip.
    pub ignore_rules: Vec<String>,
}

/// The rule engine: rule sets per category and its settings.
pub struct RuleEngine<R: Rule> {
    /// The rules of each category (the first entry of a category counts).
    pub rule_sets: Vec<(RuleCategory, Vec<R>)>,
    /// Settings.
    pub config: RuleConfig,
}

/// The rules registered for category `c`: those of its first entry.
pub open spec fn rules_for<R>(sets: Seq<(RuleCategory, Vec<R>)>, c: RuleCategory) -> Seq<R>
    decreases sets.len(),
{
    if sets.len() == 0 {
        seq![]
    } else if sets[0].0 == c {
        sets[0].1@
    } else {
        rules_for(sets.drop_first(), c)
    }
}

/// The findings of a sequence of rules, skipping the ignored ones.
pub open spec fn rules_issues<R: Rule>(rules: Seq<R>, ignore: Seq<Seq<char>>, d: GitDiffModel) -> Seq<IssueModel>
    decreases rules.len(),
{
    if rules.len() == 0 {
        seq![]
    } else {
        rules_issues(rules.drop_last(), ignore, d) + if ignore.contains(rules.last().rule_name()) {
            seq![]
        } else {
            rules.last().rule_issues(d)
        }
    }
}

/// The findings of the rules of the enabled categories, category after
/// category.
pub open spec fn engine_issues<R: Rule>(
    sets: Seq<(RuleCategory, Vec<R>)>,
    cats: Seq<RuleCategory>,
    ignore: Seq<Seq<char>>,
    d: GitDiffModel,
) -> Seq<IssueModel>
    decreases cats.len(),
{
    if cats.len() == 0 {
        seq![]
    } else {
        engine_issues(sets, cats.drop_last(), ignore, d) + rules_issues(
            rules_for(sets, cats.last()),
            ignore,
            d,
        )
    }
}

/// Whether `count` findings of weight `w` give a penalty that fits a `u8`:
/// the count taken as a `u8` (modulo 256), times the weight, is at most 255.
/// Beyond, the multiplication overflows.
pub open spec fn penalty_fits(count: nat, w: nat) -> bool {
    (count % 256) * w <= 255
}

/// The penalty of `count` findings of weight `w`: the count taken as a `u8`
/// (modulo 256), times the weight.
pub open spec fn penalty(count: usize, w: u8) -> u8 {
    ((count % 256) * w) as u8
}

/// The penalties of a set of findings fit a `u8`: errors weigh 15 and
/// warnings 5 (infos weigh 1, whose penalty always fits).
pub open spec fn scores_fit(v: Seq<IssueModel>) -> bool {
    penalty_fits(count_in(severities(v), Severity::Error), 15) && penalty_fits(
        count_in(severities(v), Severity::Warning),
        5,
    )
}

/// The penalty of `count` findings of weight `w` (see `penalty`).
fn byte_penalty(count: usize, w: u8) -> (res: u8)
    requires
        penalty_fits(count as nat, w as nat),
    ensures
        res == penalty(count, w),
{
    let c: usize = count % 256;
    assert(c * w <= 255 * 255) by (nonlinear_arith)
        requires
            c <= 255,
            w <= 255,
    ;
    let m: u32 = (c as u32) * (w as u32);
    assert(m == c * w);
    m as u8
}

/// The score of a review with the given numbers of errors, warnings and
/// infos: 100 minus the saturated sum of the penalties (15, 5 and 1 per
/// finding), not below 0.
pub open spec fn review_score(errors: usize, warnings: usize, infos: usize) -> u8 {
    100u8.saturating_sub(
        penalty(errors, 15).saturating_add(penalty(warnings, 5)).saturating_add(penalty(infos, 1)),
    )
}

/// The verdict of a review with the given numbers of errors, warnings and
/// infos.
pub open spec fn review_overview(errors: nat, warnings: nat, infos: nat) -> Seq<char> {
    if errors > 0 {
        "发现 "@ + crate::text::decimal(errors) + " 个严重问题，需要优先解决。"@
    } else if warnings > 0 {
        "发现 "@ + crate::text::decimal(warnings) + " 个警告，建议修复。"@
    } else {
        "代码质量良好，有 "@ + crate::text::decimal(infos) + " 个小问题可以改进。"@
    }
}

/// Score and verdict of a set of findings.
pub open spec fn score_and_overview(v: Seq<IssueModel>) -> (Option<u8>, Seq<char>) {
    if v.len() == 0 {
        (Some(100u8), "代码质量优秀，未发现问题。"@)
    } else {
        let e = count_in(severities(v), Severity::Error);
        let w = count_in(severities(v), Severity::Warning);
        let i = count_in(severities(v), Severity::Info);
        (Some(review_score(e as usize, w as usize, i as usize)), review_overview(e, w, i))
    }
}

fn contains_name(names: &Vec<String>, name: &str) -> (res: bool)
    ensures
        res == string_views(names@).contains(name@),
{
    let mut i: usize = 0;
    while i < names.len()
        invariant
            i <= names@.len(),
            forall|j: int| 0 <= j < i ==> names@[j]@ != name@,
        decreases names.len() - i,
    {
        if crate::text::string_eq_str(&names[i], name) {
            assert(string_views(names@)[i as int] == name@);
            return true;
        }
        i = i + 1;
    }
    assert forall|j: int| 0 <= j < string_views(names@).len() implies string_views(names@)[j] != name@ by {
        assert(string_views(names@)[j] == names@[j]@);
    }
    false
}

impl<R: Rule> RuleEngine<R> {
    /// An engine with no rules and the given settings.
    pub fn new(config: RuleConfig) -> (res: Self)
        ensures
            res.rule_sets@.len() == 0,
            res.config == config,
    {
        Self { rule_sets: Vec::new(), config }
    }

    /// Loads the rules of a language; there are none to load yet, so the
    /// engine stays as it is.
    pub fn load_language_rules(&mut self, language: &str) -> (res: Result<(), String>)
        ensures
            res is Ok,
            final(self).rule_sets@ == old(self).rule_sets@,
            final(self).config == old(self).config,
    {
        Ok(())
    }

    fn find_set(&self, c: RuleCategory) -> (res: Option<usize>)
        ensures
            match res {
                Some(k) => k < self.rule_sets@.len() && rules_for(self.rule_sets@, c)
                    == self.rule_sets@[k as int].1@,
                None => rules_for(self.rule_sets@, c) == Seq::<R>::empty(),
            },
    {
        let ghost sets = self.rule_sets@;
        let mut k: usize = 0;
        assert(sets.skip(0) =~= sets);
        while k < self.rule_sets.len()
            invariant
                sets == self.rule_sets@,
                k <= sets.len(),
                rules_for(sets, c) == rules_for(sets.skip(k as int), c),
            decreases self.rule_sets.len() - k,
        {
            proof {
                assert(sets.skip(k as int)[0] == sets[k as int]);
                assert(sets.skip(k as int).drop_first() =~= sets.skip(k + 1));
            }
            if self.rule_sets[k].0 == c {
                return Some(k);
            }
            k = k + 1;
        }
        proof {
            assert(sets.skip(k as int) =~= Seq::<(RuleCategory, Vec<R>)>::empty());
        }
        None
    }

    /// Runs the rules of the enabled categories, except the ignored ones,
    /// and summarizes their findings: per file, per severity, per category,
    /// with the line counts of the diff, a score and a verdict. The error
    /// and warning penalties must fit a byte (see `scores_fit`): beyond,
    /// their multiplication overflows.
    pub fn apply_rules(&self, context: &RuleContext) -> (res: ReviewResult)
        requires
            files_line_count(context.diff@.changed_files) < usize::MAX,
            scores_fit(
                engine_issues(
                    self.rule_sets@,
                    self.config.enabled_categories@,
                    string_views(self.config.ignore_rules@),
                    context.diff@,
                ),
            ),
        ensures
            issue_views(res.issues@) == engine_issues(
                self.rule_sets@,
                self.config.enabled_categories@,
                string_views(self.config.ignore_rules@),
                context.diff@,
            ),
            group_views(res.issues_by_file@) == group_by_file(issue_views(res.issues@)),
            res.summary.files_count == res.issues_by_file@.len(),
            res.summary.lines_count == crate::tree_sitter_analyzer::model::files_line_count(
                context.diff@.changed_files,
            ),
            res.summary.changed_lines_count == crate::tree_sitter_analyzer::model::files_change_count(
                context.diff@.changed_files,
            ),
            tally_view(res.summary.issues_by_severity@) == tally(severities(issue_views(res.issues@))),
            tally_view(res.summary.issues_by_category@) == tally(categories(issue_views(res.issues@))),
            (res.summary.score, res.summary.overview@) == score_and_overview(issue_views(res.issues@)),
    {
        let ghost sets = self.rule_sets@;
        let ghost cats = self.config.enabled_categories@;
        let ghost ignore = string_views(self.config.ignore_rules@);
        let ghost d = context.diff@;
        let mut all_issues: Vec<Issue> = Vec::new();
        let mut ci: usize = 0;
        assert(cats.take(0) =~= Seq::<RuleCategory>::empty());
        assert(issue_views(all_issues@) =~= Seq::<IssueModel>::empty());
        while ci < self.config.enabled_categories.len()
            invariant
                sets == self.rule_sets@,
                cats == self.config.enabled_categories@,
                ignore == string_views(self.config.ignore_rules@),
                d == context.diff@,
                files_line_count(context.diff@.changed_files) < usize::MAX,
                ci <= cats.len(),
                issue_views(all_issues@) == engine_issues(sets, cats.take(ci as int), ignore, d),
            decreases self.config.enabled_categories.len() - ci,
        {
            let c = self.config.enabled_categories[ci];
            proof {
                assert(cats.take(ci + 1).drop_last() =~= cats.take(ci as int));
                assert(cats.take(ci + 1).last() == c);
            }
            let ghost base = issue_views(all_issues@);
            match self.find_set(c) {
                Some(k) => {
                    let rules = &self.rule_sets[k].1;
                    let ghost rs = rules@;
                    let mut ri: usize = 0;
                    assert(rs.take(0) =~= Seq::<R>::empty());
                    assert(issue_views(all_issues@) =~= base + rules_issues(rs.take(0), ignore, d));
                    while ri < rules.len()
                        invariant
                            rs == rules@,
                            ignore == string_views(self.config.ignore_rules@),
                            d == context.diff@,
                            files_line_count(context.diff@.changed_files) < usize::MAX,
                            ri <= rs.len(),
                            issue_views(all_issues@) == base + rules_issues(rs.take(ri as int), ignore, d),
                        decreases rules.len() - ri,
                    {
                        let rule = &rules[ri];
                        proof {
                            assert(rs.take(ri + 1).drop_last() =~= rs.take(ri as int));
                            assert(rs.take(ri + 1).last() == *rule);
                        }
                        let ghost before = issue_views(all_issues@);
                        if !contains_name(&self.config.ignore_rules, rule.name()) {
                            let mut found = rule.apply(context);
                            let ghost fv = issue_views(found@);
                            all_issues.append(&mut found);
                            assert(issue_views(all_issues@) =~= before + fv);
                        } else {
                            assert(issue_views(all_issues@) =~= before + Seq::<IssueModel>::empty());
                        }
                        ri = ri + 1;
                    }
                    proof {
                        assert(rs.take(ri as int) =~= rs);
                    }
                },
                None => {
                    assert(issue_views(all_issues@) =~= base + rules_issues(Seq::<R>::empty(), ignore, d));
                },
            }
            ci = ci + 1;
        }
        proof {
            assert(cats.take(ci as int) =~= cats);
        }
        let issues_by_file = group_issues_by_file(&all_issues);
        let issues_by_severity = tally_severities(&all_issues);
        let issues_by_category = tally_categories(&all_issues);
        let (score, overview) = self.calculate_score_and_overview(&all_issues);
        let lines_count = context.diff.total_lines();
        let changed_lines_count = context.diff.changed_lines();
        ReviewResult {
            issues: all_issues,
            summary: ReviewSummary {
                files_count: issues_by_file.len(),
                lines_count,
                changed_lines_count,
                issues_by_severity,
                issues_by_category,
                score,
                overview,
            },
            issues_by_file,
        }
    }

    /// Score and verdict of a set of findings.
    fn calculate_score_and_overview(&self, issues: &Vec<Issue>) -> (res: (Option<u8>, String))
        requires
            scores_fit(issue_views(issues@)),
        ensures
            (res.0, res.1@) == score_and_overview(issue_views(issues@)),
    {
        if issues.len() == 0 {
            return (Some(100), String::from_str("代码质量优秀，未发现问题。"));
        }
        let error_count = count_severity(issues, Severity::Error);
        let warning_count = count_severity(issues, Severity::Warning);
        let info_count = count_severity(issues, Severity::Info);
        let base_score: u8 = 100;
        assert((info_count % 256) * 1 <= 255);
        let error_penalty = byte_penalty(error_count, 15);
        let warning_penalty = byte_penalty(warning_count, 5);
        let info_penalty = byte_penalty(info_count, 1);
        let total_penalty = error_penalty.saturating_add(warning_penalty).saturating_add(info_penalty);
        let score = base_score.saturating_sub(total_penalty);
        let mut overview = String::new();
        if error_count > 0 {
            overview.append("发现 ");
            crate::text::push_decimal_string(&mut overview, error_count);
            overview.append(" 个严重问题，需要优先解决。");
        } else if warning_count > 0 {
            overview.append("发现 ");
            crate::text::push_decimal_string(&mut overview, warning_count);
            overview.append(" 个警告，建议修复。");
        } else {
            overview.append("代码质量良好，有 ");
            crate::text::push_decimal_string(&mut overview, info_count);
            overview.append(" 个小问题可以改进。");
        }
        proof {
            assert(issue_views(issues@).len() > 0);
        }
        (Some(score), overview)
    }
}

} // verus!
