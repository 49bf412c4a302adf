//! The review rules and the factory that assembles rule sets.

use vstd::prelude::*;
use vstd::string::StringExecFns;
use crate::text::{
    byte_len, chars_byte_len, chars_of, decimal, is_blank, leading_ws, leading_ws_exec,
    push_decimal_string, slice_chars, starts_with_char, trim_seq,
};
use crate::review_engine::{
    diff_entries, file_entries, issue_views, line_views, numbered_lines, DiffLine, Issue, IssueModel, CodeLocation,
    LineEntry, LocationModel, Rule, RuleCategory, RuleContext, Severity,
};
use crate::tree_sitter_analyzer::model::{files_line_count, ChangedFileModel, GitDiffModel};

verus! {

/// The identifier of the `k`-th finding of a rule.
pub open spec fn issue_id(name: Seq<char>, k: nat) -> Seq<char> {
    name + ":"@ + decimal(k)
}

/// The location of a numbered line.
pub open spec fn line_location(e: LineEntry) -> LocationModel {
    LocationModel {
        file_path: e.path,
        start_line: e.number as usize,
        end_line: e.number as usize,
        start_column: None,
        end_column: None,
    }
}

fn make_id(name: &str, k: usize) -> (res: String)
    ensures
        res@ == issue_id(name@, k as nat),
{
    let mut s = String::from_str(name);
    s.append(":");
    push_decimal_string(&mut s, k);
    s
}

fn line_location_exec(line: &DiffLine) -> (res: CodeLocation)
    ensures
        res@ == line_location(line@),
{
    CodeLocation {
        file_path: line.path.clone(),
        start_line: line.number,
        end_line: line.number,
        start_column: None,
        end_column: None,
    }
}

// ---------------------------------------------------------------------------
// Line length
// ---------------------------------------------------------------------------

/// Flags added lines longer than a maximum number of bytes.
pub struct LineLength {
    pub max_length: usize,
    pub severity: Severity,
}

/// An added line longer than `max` bytes.
pub open spec fn is_overlong(max: usize, text: Seq<char>) -> bool {
    text.len() > 0 && text[0] == '+' && byte_len(text) > max
}

/// The lines that the line-length rule flags, in order.
pub open spec fn overlong_entries(max: usize, es: Seq<LineEntry>) -> Seq<LineEntry>
    decreases es.len(),
{
    if es.len() == 0 {
        seq![]
    } else {
        overlong_entries(max, es.drop_last()) + if is_overlong(max, es.last().text) {
            seq![es.last()]
        } else {
            seq![]
        }
    }
}

/// The `k`-th finding of the line-length rule, on line `e`.
pub open spec fn line_length_issue(rule: LineLength, e: LineEntry, k: nat) -> IssueModel {
    IssueModel {
        id: issue_id("line-length"@, k),
        title: "行长度超过 "@ + decimal(rule.max_length as nat) + " 字符"@,
        description: "该行长度为 "@ + decimal(byte_len(e.text) as nat) + " 字符，超过了推荐的最大长度 "@
            + decimal(rule.max_length as nat) + " 字符"@,
        location: line_location(e),
        severity: rule.severity,
        category: RuleCategory::Style,
        code_snippet: Some(e.text),
        suggestion: Some(
            "考虑将该行拆分为多行，保持每行不超过 "@ + decimal(rule.max_length as nat) + " 字符"@,
        ),
        explanation: None,
    }
}

/// The findings of the line-length rule for a sequence of flagged lines.
pub open spec fn line_length_issues(rule: LineLength, flagged: Seq<LineEntry>) -> Seq<IssueModel> {
    Seq::new(flagged.len(), |k: int| line_length_issue(rule, flagged[k], (k + 1) as nat))
}

impl LineLength {
    fn issue_for(&self, line: &DiffLine, len: usize, k: usize) -> (res: Issue)
        requires
            len == byte_len(line@.text),
        ensures
            res@ == line_length_issue(*self, line@, k as nat),
    {
        let mut title = String::from_str("行长度超过 ");
        push_decimal_string(&mut title, self.max_length);
        title.append(" 字符");
        let mut description = String::from_str("该行长度为 ");
        push_decimal_string(&mut description, len);
        description.append(" 字符，超过了推荐的最大长度 ");
        push_decimal_string(&mut description, self.max_length);
        description.append(" 字符");
        let mut suggestion = String::from_str("考虑将该行拆分为多行，保持每行不超过 ");
        push_decimal_string(&mut suggestion, self.max_length);
        suggestion.append(" 字符");
        Issue {
            id: make_id("line-length", k),
            title,
            description,
            location: line_location_exec(line),
            severity: self.severity,
            category: RuleCategory::Style,
            code_snippet: Some(line.text.clone()),
            suggestion: Some(suggestion),
            explanation: None,
        }
    }
}

impl Rule for LineLength {
    open spec fn rule_name(&self) -> Seq<char> {
        "line-length"@
    }

    open spec fn rule_category(&self) -> RuleCategory {
        RuleCategory::Style
    }

    open spec fn rule_severity(&self) -> Severity {
        self.severity
    }

    open spec fn applies_to(&self, language: Seq<char>) -> bool {
        true
    }

    open spec fn rule_issues(&self, diff: GitDiffModel) -> Seq<IssueModel> {
        line_length_issues(*self, overlong_entries(self.max_length, diff_entries(diff.changed_files)))
    }

    fn name(&self) -> (res: &str) {
        "line-length"
    }

    fn category(&self) -> (res: RuleCategory) {
        RuleCategory::Style
    }

    fn apply(&self, context: &RuleContext) -> (res: Vec<Issue>) {
        let lines = numbered_lines(context.diff);
        let ghost es = line_views(lines@);
        let mut issues: Vec<Issue> = Vec::new();
        let mut i: usize = 0;
        while i < lines.len()
            invariant
                es == line_views(lines@),
                i <= es.len(),
                issue_views(issues@) == line_length_issues(
                    *self,
                    overlong_entries(self.max_length, es.take(i as int)),
                ),
                issues@.len() <= i,
            decreases lines.len() - i,
        {
            let text = chars_of(lines[i].text.as_str());
            let ghost flagged = overlong_entries(self.max_length, es.take(i as int));
            proof {
                assert(es.take(i + 1).drop_last() =~= es.take(i as int));
                assert(es[i as int].text == text@);
            }
            if starts_with_char(text.as_slice(), '+') {
                let len = chars_byte_len(text.as_slice());
                if len > self.max_length {
                    let issue = self.issue_for(&lines[i], len, issues.len() + 1);
                    let ghost old_views = issue_views(issues@);
                    let ghost iv = issue@;
                    issues.push(issue);
                    proof {
                        let f2 = flagged.push(es[i as int]);
                        assert(overlong_entries(self.max_length, es.take(i + 1)) == f2);
                        assert(issue_views(issues@) =~= old_views.push(iv));
                        assert(issue_views(issues@) =~= line_length_issues(*self, f2));
                    }
                }
            }
            proof {
                if !is_overlong(self.max_length, text@) {
                    assert(overlong_entries(self.max_length, es.take(i + 1)) =~= flagged);
                }
            }
            i = i + 1;
        }
        proof {
            assert(es.take(i as int) =~= es);
        }
        issues
    }

    fn severity(&self) -> (res: Severity) {
        self.severity
    }

    fn is_applicable(&self, language: &str) -> (res: bool) {
        true
    }
}


// ---------------------------------------------------------------------------
// Consistent indentation
// ---------------------------------------------------------------------------

/// Flags added lines whose indentation is not a multiple of the first
/// indentation seen in the same file.
pub struct ConsistentIndentation {
    pub severity: Severity,
}

/// The indentation of an added, non-blank line: the byte length of the
/// white space after its `+`.
pub open spec fn indent_width(text: Seq<char>) -> Option<usize> {
    if text.len() > 0 && text[0] == '+' && trim_seq(text.drop_first()).len() > 0 {
        Some(byte_len(text.drop_first().take(leading_ws(text.drop_first()) as int)))
    } else {
        None
    }
}

/// A line whose indentation `leading` is no multiple of `standard`.
pub struct IndentFinding {
    pub entry: LineEntry,
    pub standard: usize,
    pub leading: usize,
}

/// The indentation detected in the current file and the findings so far,
/// after a sequence of lines. The detected indentation is the first
/// non-zero indentation of the file; each file starts afresh.
pub open spec fn indent_scan(es: Seq<LineEntry>) -> (Option<usize>, Seq<IndentFinding>)
    decreases es.len(),
{
    if es.len() == 0 {
        (None, seq![])
    } else {
        let prev = indent_scan(es.drop_last());
        let e = es.last();
        let d = if e.number == 1 {
            None
        } else {
            prev.0
        };
        match indent_width(e.text) {
            None => (d, prev.1),
            Some(w) => {
                let d2 = if d is None && w > 0 {
                    Some(w)
                } else {
                    d
                };
                match d2 {
                    Some(st) => if w > 0 && w % st != 0 {
                        (d2, prev.1.push(IndentFinding { entry: e, standard: st, leading: w }))
                    } else {
                        (d2, prev.1)
                    },
                    None => (d2, prev.1),
                }
            },
        }
    }
}

/// The indentation findings of each file taken alone, file after file.
pub open spec fn indent_findings_per_file(fs: Seq<ChangedFileModel>) -> Seq<IndentFinding>
    decreases fs.len(),
{
    if fs.len() == 0 {
        seq![]
    } else {
        indent_findings_per_file(fs.drop_last()) + indent_scan(file_entries(fs.last())).1
    }
}

/// Scanning lines that follow others, where the later ones start a file
/// (their first line is line 1), finds what the earlier lines give and then
/// what the later ones give alone.
proof fn lemma_indent_scan_restarts(a: Seq<LineEntry>, b: Seq<LineEntry>)
    requires
        b.len() > 0 ==> b[0].number == 1,
    ensures
        indent_scan(a + b).1 == indent_scan(a).1 + indent_scan(b).1,
        b.len() > 0 ==> indent_scan(a + b).0 == indent_scan(b).0,
    decreases b.len(),
{
    if b.len() == 0 {
        assert(a + b =~= a);
        assert(indent_scan(a).1 + indent_scan(b).1 =~= indent_scan(a).1);
    } else {
        let bi = b.drop_last();
        assert((a + b).drop_last() =~= a + bi);
        assert((a + b).last() == b.last());
        if bi.len() == 0 {
            assert(a + bi =~= a);
            assert(b.last() == b[0]);
            let pa = indent_scan(a);
            assert(indent_scan(bi) == (None::<usize>, Seq::<IndentFinding>::empty()));
            let xa = indent_scan(a + b);
            let xb = indent_scan(b);
            assert(xa.1 =~= pa.1 + xb.1);
        } else {
            assert(bi[0] == b[0]);
            lemma_indent_scan_restarts(a, bi);
            let pa = indent_scan(a);
            let pb = indent_scan(bi);
            let xa = indent_scan(a + b);
            let xb = indent_scan(b);
            assert(xa.0 == xb.0);
            assert(xa.1 =~= pa.1 + xb.1);
        }
    }
}

/// Law: the indentation rule judges each file by its own lines. The
/// findings for a diff are the findings for each of its files taken alone,
/// file after file: the detected indentation restarts at each file.
pub proof fn law_indentation_is_judged_per_file(fs: Seq<ChangedFileModel>)
    ensures
        indent_scan(diff_entries(fs)).1 == indent_findings_per_file(fs),
    decreases fs.len(),
{
    if fs.len() > 0 {
        law_indentation_is_judged_per_file(fs.drop_last());
        let b = file_entries(fs.last());
        if b.len() > 0 {
            assert(b[0].number == 1);
        }
        lemma_indent_scan_restarts(diff_entries(fs.drop_last()), b);
    }
}

/// The `k`-th finding of the indentation rule.
pub open spec fn indentation_issue(rule: ConsistentIndentation, f: IndentFinding, k: nat) -> IssueModel {
    IssueModel {
        id: issue_id("consistent-indentation"@, k),
        title: "缩进不一致"@,
        description: "检测到首选缩进为 "@ + decimal(f.standard as nat) + " 空格，但该行使用了 "@
            + decimal(f.leading as nat) + " 空格"@,
        location: line_location(f.entry),
        severity: rule.severity,
        category: RuleCategory::Style,
        code_snippet: Some(f.entry.text),
        suggestion: Some("使用一致的缩进（"@ + decimal(f.standard as nat) + "空格的倍数）"@),
        explanation: None,
    }
}

/// The findings of the indentation rule for a sequence of flagged lines.
pub open spec fn indentation_issues(rule: ConsistentIndentation, fs: Seq<IndentFinding>) -> Seq<IssueModel> {
    Seq::new(fs.len(), |k: int| indentation_issue(rule, fs[k], (k + 1) as nat))
}

/// The indentation of an added line, as the rule measures it.
fn indent_width_exec(text: &[char]) -> (res: Option<usize>)
    ensures
        res == indent_width(text@),
{
    if !starts_with_char(text, '+') {
        return None;
    }
    let content = slice_chars(text, 1, text.len());
    assert(content@ =~= text@.drop_first());
    if is_blank(content.as_slice()) {
        return None;
    }
    let a = leading_ws_exec(content.as_slice());
    proof {
        crate::text::lemma_leading_ws(content@);
    }
    let prefix = slice_chars(content.as_slice(), 0, a);
    assert(prefix@ =~= content@.take(a as int));
    Some(chars_byte_len(prefix.as_slice()))
}

impl ConsistentIndentation {
    fn issue_for(&self, line: &DiffLine, standard: usize, leading: usize, k: usize) -> (res: Issue)
        ensures
            res@ == indentation_issue(
                *self,
                IndentFinding { entry: line@, standard, leading },
                k as nat,
            ),
    {
        let mut description = String::from_str("检测到首选缩进为 ");
        push_decimal_string(&mut description, standard);
        description.append(" 空格，但该行使用了 ");
        push_decimal_string(&mut description, leading);
        description.append(" 空格");
        let mut suggestion = String::from_str("使用一致的缩进（");
        push_decimal_string(&mut suggestion, standard);
        suggestion.append("空格的倍数）");
        Issue {
            id: make_id("consistent-indentation", k),
            title: String::from_str("缩进不一致"),
            description,
            location: line_location_exec(line),
            severity: self.severity,
            category: RuleCategory::Style,
            code_snippet: Some(line.text.clone()),
            suggestion: Some(suggestion),
            explanation: None,
        }
    }
}

impl Rule for ConsistentIndentation {
    open spec fn rule_name(&self) -> Seq<char> {
        "consistent-indentation"@
    }

    open spec fn rule_category(&self) -> RuleCategory {
        RuleCategory::Style
    }

    open spec fn rule_severity(&self) -> Severity {
        self.severity
    }

    open spec fn applies_to(&self, language: Seq<char>) -> bool {
        true
    }

    open spec fn rule_issues(&self, diff: GitDiffModel) -> Seq<IssueModel> {
        indentation_issues(*self, indent_scan(diff_entries(diff.changed_files)).1)
    }

    fn name(&self) -> (res: &str) {
        "consistent-indentation"
    }

    fn category(&self) -> (res: RuleCategory) {
        RuleCategory::Style
    }

    fn apply(&self, context: &RuleContext) -> (res: Vec<Issue>) {
        let lines = numbered_lines(context.diff);
        let ghost es = line_views(lines@);
        let mut issues: Vec<Issue> = Vec::new();
        let mut detected: Option<usize> = None;
        let mut i: usize = 0;
        while i < lines.len()
            invariant
                es == line_views(lines@),
                i <= es.len(),
                indent_scan(es.take(i as int)).0 == detected,
                detected matches Some(st) ==> st > 0,
                issue_views(issues@) == indentation_issues(*self, indent_scan(es.take(i as int)).1),
                issues@.len() <= i,
            decreases lines.len() - i,
        {
            let text = chars_of(lines[i].text.as_str());
            let ghost prev = indent_scan(es.take(i as int));
            proof {
                assert(es.take(i + 1).drop_last() =~= es.take(i as int));
                assert(es[i as int].text == text@);
                assert(es.take(i + 1).last() == es[i as int]);
            }
            if lines[i].number == 1 {
                detected = None;
            }
            match indent_width_exec(text.as_slice()) {
                None => {},
                Some(w) => {
                    if detected.is_none() && w > 0 {
                        detected = Some(w);
                    }
                    match detected {
                        Some(st) => {
                            if w > 0 && w % st != 0 {
                                let issue = self.issue_for(&lines[i], st, w, issues.len() + 1);
                                let ghost old_views = issue_views(issues@);
                                let ghost iv = issue@;
                                issues.push(issue);
                                proof {
                                    let f2 = prev.1.push(
                                        IndentFinding { entry: es[i as int], standard: st, leading: w },
                                    );
                                    assert(indent_scan(es.take(i + 1)).1 == f2);
                                    assert(issue_views(issues@) =~= old_views.push(iv));
                                    assert(issue_views(issues@) =~= indentation_issues(*self, f2));
                                }
                            }
                        },
                        None => {},
                    }
                },
            }
            i = i + 1;
        }
        proof {
            assert(es.take(i as int) =~= es);
        }
        issues
    }

    fn severity(&self) -> (res: Severity) {
        self.severity
    }

    fn is_applicable(&self, language: &str) -> (res: bool) {
        true
    }
}

// ---------------------------------------------------------------------------
// Hard-coded credentials
// ---------------------------------------------------------------------------

/// Flags added lines that assign a password, key or token.
pub struct HardcodedCredentials {
    pub severity: Severity,
}

/// The result of matching the case-insensitive regular expression
/// `(password|passwd|pwd|secret|key|token|api_key|apikey|access_token)\s*[=:]`
/// anywhere in a text.
pub uninterp spec fn credential_assignment(content: Seq<char>) -> bool;

/// `regex` crate: `Regex::new` of the credential pattern and `is_match`. The
/// contract ties the answer to the text through `credential_assignment`; the
/// regular-expression semantics (Unicode case folding, `\s`) is not stated.
#[verifier::external_body]
fn regex_credential_match(content: &str) -> (res: bool)
    ensures
        res == credential_assignment(content@),
{
    regex::Regex::new(
        r"(?i)(password|passwd|pwd|secret|key|token|api_key|apikey|access_token)\s*[=:]",
    ).unwrap().is_match(content)
}

/// An added line that assigns a credential.
pub open spec fn is_hardcoded_credential(text: Seq<char>) -> bool {
    text.len() > 0 && text[0] == '+' && credential_assignment(text.drop_first())
}

/// The lines that the credential rule flags, in order.
pub open spec fn credential_entries(es: Seq<LineEntry>) -> Seq<LineEntry>
    decreases es.len(),
{
    if es.len() == 0 {
        seq![]
    } else {
        credential_entries(es.drop_last()) + if is_hardcoded_credential(es.last().text) {
            seq![es.last()]
        } else {
            seq![]
        }
    }
}

/// The `k`-th finding of the credential rule.
pub open spec fn credential_issue(rule: HardcodedCredentials, e: LineEntry, k: nat) -> IssueModel {
    IssueModel {
        id: issue_id("hardcoded-credentials"@, k),
        title: "检测到硬编码凭证"@,
        description: "代码中包含硬编码的密码或密钥或令牌, 这是一个安全风险"@,
        location: line_location(e),
        severity: rule.severity,
        category: RuleCategory::Security,
        code_snippet: Some(e.text),
        suggestion: Some("使用环境变量或配置文件或安全的凭证管理服务来存储敏感信息"@),
        explanation: Some("硬编码凭证可能导致敏感信息泄露, 特别是当代码被推送到公共仓库时."@),
    }
}

/// The findings of the credential rule for a sequence of flagged lines.
pub open spec fn credential_issues(rule: HardcodedCredentials, flagged: Seq<LineEntry>) -> Seq<IssueModel> {
    Seq::new(flagged.len(), |k: int| credential_issue(rule, flagged[k], (k + 1) as nat))
}

impl HardcodedCredentials {
    fn issue_for(&self, line: &DiffLine, k: usize) -> (res: Issue)
        ensures
            res@ == credential_issue(*self, line@, k as nat),
    {
        Issue {
            id: make_id("hardcoded-credentials", k),
            title: String::from_str("检测到硬编码凭证"),
            description: String::from_str("代码中包含硬编码的密码或密钥或令牌, 这是一个安全风险"),
            location: line_location_exec(line),
            severity: self.severity,
            category: RuleCategory::Security,
            code_snippet: Some(line.text.clone()),
            suggestion: Some(
                String::from_str("使用环境变量或配置文件或安全的凭证管理服务来存储敏感信息"),
            ),
            explanation: Some(
                String::from_str("硬编码凭证可能导致敏感信息泄露, 特别是当代码被推送到公共仓库时."),
            ),
        }
    }
}

impl Rule for HardcodedCredentials {
    open spec fn rule_name(&self) -> Seq<char> {
        "hardcoded-credentials"@
    }

    open spec fn rule_category(&self) -> RuleCategory {
        RuleCategory::Security
    }

    open spec fn rule_severity(&self) -> Severity {
        self.severity
    }

    open spec fn applies_to(&self, language: Seq<char>) -> bool {
        true
    }

    open spec fn rule_issues(&self, diff: GitDiffModel) -> Seq<IssueModel> {
        credential_issues(*self, credential_entries(diff_entries(diff.changed_files)))
    }

    fn name(&self) -> (res: &str) {
        "hardcoded-credentials"
    }

    fn category(&self) -> (res: RuleCategory) {
        RuleCategory::Security
    }

    fn apply(&self, context: &RuleContext) -> (res: Vec<Issue>) {
        let lines = numbered_lines(context.diff);
        let ghost es = line_views(lines@);
        let mut issues: Vec<Issue> = Vec::new();
        let mut i: usize = 0;
        while i < lines.len()
            invariant
                es == line_views(lines@),
                i <= es.len(),
                issue_views(issues@) == credential_issues(*self, credential_entries(es.take(i as int))),
                issues@.len() <= i,
            decreases lines.len() - i,
        {
            let text = chars_of(lines[i].text.as_str());
            let ghost flagged = credential_entries(es.take(i as int));
            proof {
                assert(es.take(i + 1).drop_last() =~= es.take(i as int));
                assert(es[i as int].text == text@);
            }
            let mut hit = false;
            if starts_with_char(text.as_slice(), '+') {
                let content = slice_chars(text.as_slice(), 1, text.len());
                assert(content@ =~= text@.drop_first());
                let content_str = crate::text::to_string(&content);
                if regex_credential_match(content_str.as_str()) {
                    hit = true;
                    let issue = self.issue_for(&lines[i], issues.len() + 1);
                    let ghost old_views = issue_views(issues@);
                    let ghost iv = issue@;
                    issues.push(issue);
                    proof {
                        let f2 = flagged.push(es[i as int]);
                        assert(credential_entries(es.take(i + 1)) == f2);
                        assert(issue_views(issues@) =~= old_views.push(iv));
                        assert(issue_views(issues@) =~= credential_issues(*self, f2));
                    }
                }
            }
            proof {
                if !hit {
                    assert(!is_hardcoded_credential(text@));
                    assert(credential_entries(es.take(i + 1)) =~= flagged);
                }
            }
            i = i + 1;
        }
        proof {
            assert(es.take(i as int) =~= es);
        }
        issues
    }

    fn severity(&self) -> (res: Severity) {
        self.severity
    }

    fn is_applicable(&self, language: &str) -> (res: bool) {
        true
    }
}


// ---------------------------------------------------------------------------
// Rules that need a syntax tree
// ---------------------------------------------------------------------------

/// Naming conventions; this check needs a syntax tree and reports nothing on diffs.
pub struct NamingConvention {
    pub severity: Severity,
}

impl Rule for NamingConvention {
    open spec fn rule_name(&self) -> Seq<char> {
        "naming-convention"@
    }

    open spec fn rule_category(&self) -> RuleCategory {
        RuleCategory::Style
    }

    open spec fn rule_severity(&self) -> Severity {
        self.severity
    }

    open spec fn applies_to(&self, language: Seq<char>) -> bool {
        true
    }

    open spec fn rule_issues(&self, diff: GitDiffModel) -> Seq<IssueModel> {
        seq![]
    }

    fn name(&self) -> (res: &str) {
        "naming-convention"
    }

    fn category(&self) -> (res: RuleCategory) {
        RuleCategory::Style
    }

    fn apply(&self, context: &RuleContext) -> (res: Vec<Issue>) {
        let issues: Vec<Issue> = Vec::new();
        assert(issue_views(issues@) =~= Seq::<IssueModel>::empty());
        issues
    }

    fn severity(&self) -> (res: Severity) {
        self.severity
    }

    fn is_applicable(&self, language: &str) -> (res: bool) {
        true
    }
}

/// Over-long functions; this check needs a syntax tree and reports nothing on diffs.
pub struct LongFunction {
    pub max_lines: usize,
    pub severity: Severity,
}

impl Rule for LongFunction {
    open spec fn rule_name(&self) -> Seq<char> {
        "long-function"@
    }

    open spec fn rule_category(&self) -> RuleCategory {
        RuleCategory::Complexity
    }

    open spec fn rule_severity(&self) -> Severity {
        self.severity
    }

    open spec fn applies_to(&self, language: Seq<char>) -> bool {
        true
    }

    open spec fn rule_issues(&self, diff: GitDiffModel) -> Seq<IssueModel> {
        seq![]
    }

    fn name(&self) -> (res: &str) {
        "long-function"
    }

    fn category(&self) -> (res: RuleCategory) {
        RuleCategory::Complexity
    }

    fn apply(&self, context: &RuleContext) -> (res: Vec<Issue>) {
        let issues: Vec<Issue> = Vec::new();
        assert(issue_views(issues@) =~= Seq::<IssueModel>::empty());
        issues
    }

    fn severity(&self) -> (res: Severity) {
        self.severity
    }

    fn is_applicable(&self, language: &str) -> (res: bool) {
        true
    }
}

/// Over-complex conditions; this check needs a syntax tree and reports nothing on diffs.
pub struct ComplexCondition {
    pub max_logical_ops: usize,
    pub severity: Severity,
}

impl Rule for ComplexCondition {
    open spec fn rule_name(&self) -> Seq<char> {
        "complex-condition"@
    }

    open spec fn rule_category(&self) -> RuleCategory {
        RuleCategory::Complexity
    }

    open spec fn rule_severity(&self) -> Severity {
        self.severity
    }

    open spec fn applies_to(&self, language: Seq<char>) -> bool {
        true
    }

    open spec fn rule_issues(&self, diff: GitDiffModel) -> Seq<IssueModel> {
        seq![]
    }

    fn name(&self) -> (res: &str) {
        "complex-condition"
    }

    fn category(&self) -> (res: RuleCategory) {
        RuleCategory::Complexity
    }

    fn apply(&self, context: &RuleContext) -> (res: Vec<Issue>) {
        let issues: Vec<Issue> = Vec::new();
        assert(issue_views(issues@) =~= Seq::<IssueModel>::empty());
        issues
    }

    fn severity(&self) -> (res: Severity) {
        self.severity
    }

    fn is_applicable(&self, language: &str) -> (res: bool) {
        true
    }
}

/// Magic numbers; this check needs a syntax tree and reports nothing on diffs.
pub struct MagicNumber {
    pub severity: Severity,
}

impl Rule for MagicNumber {
    open spec fn rule_name(&self) -> Seq<char> {
        "magic-number"@
    }

    open spec fn rule_category(&self) -> RuleCategory {
        RuleCategory::BestPractices
    }

    open spec fn rule_severity(&self) -> Severity {
        self.severity
    }

    open spec fn applies_to(&self, language: Seq<char>) -> bool {
        true
    }

    open spec fn rule_issues(&self, diff: GitDiffModel) -> Seq<IssueModel> {
        seq![]
    }

    fn name(&self) -> (res: &str) {
        "magic-number"
    }

    fn category(&self) -> (res: RuleCategory) {
        RuleCategory::BestPractices
    }

    fn apply(&self, context: &RuleContext) -> (res: Vec<Issue>) {
        let issues: Vec<Issue> = Vec::new();
        assert(issue_views(issues@) =~= Seq::<IssueModel>::empty());
        issues
    }

    fn severity(&self) -> (res: Severity) {
        self.severity
    }

    fn is_applicable(&self, language: &str) -> (res: bool) {
        true
    }
}

/// Missing comments; this check needs a syntax tree and reports nothing on diffs.
pub struct MissingComments {
    pub severity: Severity,
}

impl Rule for MissingComments {
    open spec fn rule_name(&self) -> Seq<char> {
        "missing-comments"@
    }

    open spec fn rule_category(&self) -> RuleCategory {
        RuleCategory::BestPractices
    }

    open spec fn rule_severity(&self) -> Severity {
        self.severity
    }

    open spec fn applies_to(&self, language: Seq<char>) -> bool {
        true
    }

    open spec fn rule_issues(&self, diff: GitDiffModel) -> Seq<IssueModel> {
        seq![]
    }

    fn name(&self) -> (res: &str) {
        "missing-comments"
    }

    fn category(&self) -> (res: RuleCategory) {
        RuleCategory::BestPractices
    }

    fn apply(&self, context: &RuleContext) -> (res: Vec<Issue>) {
        let issues: Vec<Issue> = Vec::new();
        assert(issue_views(issues@) =~= Seq::<IssueModel>::empty());
        issues
    }

    fn severity(&self) -> (res: Severity) {
        self.severity
    }

    fn is_applicable(&self, language: &str) -> (res: bool) {
        true
    }
}

/// Dead code; this check needs a syntax tree and reports nothing on diffs.
pub struct DeadCode {
    pub severity: Severity,
}

impl Rule for DeadCode {
    open spec fn rule_name(&self) -> Seq<char> {
        "dead-code"@
    }

    open spec fn rule_category(&self) -> RuleCategory {
        RuleCategory::Bugs
    }

    open spec fn rule_severity(&self) -> Severity {
        self.severity
    }

    open spec fn applies_to(&self, language: Seq<char>) -> bool {
        true
    }

    open spec fn rule_issues(&self, diff: GitDiffModel) -> Seq<IssueModel> {
        seq![]
    }

    fn name(&self) -> (res: &str) {
        "dead-code"
    }

    fn category(&self) -> (res: RuleCategory) {
        RuleCategory::Bugs
    }

    fn apply(&self, context: &RuleContext) -> (res: Vec<Issue>) {
        let issues: Vec<Issue> = Vec::new();
        assert(issue_views(issues@) =~= Seq::<IssueModel>::empty());
        issues
    }

    fn severity(&self) -> (res: Severity) {
        self.severity
    }

    fn is_applicable(&self, language: &str) -> (res: bool) {
        true
    }
}

/// Unused variables; this check needs a syntax tree and reports nothing on diffs.
pub struct UnusedVariable {
    pub severity: Severity,
}

impl Rule for UnusedVariable {
    open spec fn rule_name(&self) -> Seq<char> {
        "unused-variable"@
    }

    open spec fn rule_category(&self) -> RuleCategory {
        RuleCategory::Bugs
    }

    open spec fn rule_severity(&self) -> Severity {
        self.severity
    }

    open spec fn applies_to(&self, language: Seq<char>) -> bool {
        true
    }

    open spec fn rule_issues(&self, diff: GitDiffModel) -> Seq<IssueModel> {
        seq![]
    }

    fn name(&self) -> (res: &str) {
        "unused-variable"
    }

    fn category(&self) -> (res: RuleCategory) {
        RuleCategory::Bugs
    }

    fn apply(&self, context: &RuleContext) -> (res: Vec<Issue>) {
        let issues: Vec<Issue> = Vec::new();
        assert(issue_views(issues@) =~= Seq::<IssueModel>::empty());
        issues
    }

    fn severity(&self) -> (res: Severity) {
        self.severity
    }

    fn is_applicable(&self, language: &str) -> (res: bool) {
        true
    }
}

/// Unsafe input handling; this check needs a syntax tree and reports nothing on diffs.
pub struct UnsafeInput {
    pub severity: Severity,
}

impl Rule for UnsafeInput {
    open spec fn rule_name(&self) -> Seq<char> {
        "unsafe-input"@
    }

    open spec fn rule_category(&self) -> RuleCategory {
        RuleCategory::Security
    }

    open spec fn rule_severity(&self) -> Severity {
        self.severity
    }

    open spec fn applies_to(&self, language: Seq<char>) -> bool {
        true
    }

    open spec fn rule_issues(&self, diff: GitDiffModel) -> Seq<IssueModel> {
        seq![]
    }

    fn name(&self) -> (res: &str) {
        "unsafe-input"
    }

    fn category(&self) -> (res: RuleCategory) {
        RuleCategory::Security
    }

    fn apply(&self, context: &RuleContext) -> (res: Vec<Issue>) {
        let issues: Vec<Issue> = Vec::new();
        assert(issue_views(issues@) =~= Seq::<IssueModel>::empty());
        issues
    }

    fn severity(&self) -> (res: Severity) {
        self.severity
    }

    fn is_applicable(&self, language: &str) -> (res: bool) {
        true
    }
}

/// Inefficient algorithms; this check needs a syntax tree and reports nothing on diffs.
pub struct InefficientAlgorithm {
    pub severity: Severity,
}

impl Rule for InefficientAlgorithm {
    open spec fn rule_name(&self) -> Seq<char> {
        "inefficient-algorithm"@
    }

    open spec fn rule_category(&self) -> RuleCategory {
        RuleCategory::Performance
    }

    open spec fn rule_severity(&self) -> Severity {
        self.severity
    }

    open spec fn applies_to(&self, language: Seq<char>) -> bool {
        true
    }

    open spec fn rule_issues(&self, diff: GitDiffModel) -> Seq<IssueModel> {
        seq![]
    }

    fn name(&self) -> (res: &str) {
        "inefficient-algorithm"
    }

    fn category(&self) -> (res: RuleCategory) {
        RuleCategory::Performance
    }

    fn apply(&self, context: &RuleContext) -> (res: Vec<Issue>) {
        let issues: Vec<Issue> = Vec::new();
        assert(issue_views(issues@) =~= Seq::<IssueModel>::empty());
        issues
    }

    fn severity(&self) -> (res: Severity) {
        self.severity
    }

    fn is_applicable(&self, language: &str) -> (res: bool) {
        true
    }
}

/// Resource leaks; this check needs a syntax tree and reports nothing on diffs.
pub struct ResourceLeak {
    pub severity: Severity,
}

impl Rule for ResourceLeak {
    open spec fn rule_name(&self) -> Seq<char> {
        "resource-leak"@
    }

    open spec fn rule_category(&self) -> RuleCategory {
        RuleCategory::Performance
    }

    open spec fn rule_severity(&self) -> Severity {
        self.severity
    }

    open spec fn applies_to(&self, language: Seq<char>) -> bool {
        true
    }

    open spec fn rule_issues(&self, diff: GitDiffModel) -> Seq<IssueModel> {
        seq![]
    }

    fn name(&self) -> (res: &str) {
        "resource-leak"
    }

    fn category(&self) -> (res: RuleCategory) {
        RuleCategory::Performance
    }

    fn apply(&self, context: &RuleContext) -> (res: Vec<Issue>) {
        let issues: Vec<Issue> = Vec::new();
        assert(issue_views(issues@) =~= Seq::<IssueModel>::empty());
        issues
    }

    fn severity(&self) -> (res: Severity) {
        self.severity
    }

    fn is_applicable(&self, language: &str) -> (res: bool) {
        true
    }
}

// ---------------------------------------------------------------------------
// Rule sets
// ---------------------------------------------------------------------------

/// One of the built-in rules.
pub enum BuiltinRule {
    LineLength(LineLength),
    ConsistentIndentation(ConsistentIndentation),
    NamingConvention(NamingConvention),
    LongFunction(LongFunction),
    ComplexCondition(ComplexCondition),
    MagicNumber(MagicNumber),
    MissingComments(MissingComments),
    DeadCode(DeadCode),
    UnusedVariable(UnusedVariable),
    HardcodedCredentials(HardcodedCredentials),
    UnsafeInput(UnsafeInput),
    InefficientAlgorithm(InefficientAlgorithm),
    ResourceLeak(ResourceLeak),
}

impl Rule for BuiltinRule {
    open spec fn rule_name(&self) -> Seq<char> {
        match self {
            BuiltinRule::LineLength(r) => r.rule_name(),
            BuiltinRule::ConsistentIndentation(r) => r.rule_name(),
            BuiltinRule::NamingConvention(r) => r.rule_name(),
            BuiltinRule::LongFunction(r) => r.rule_name(),
            BuiltinRule::ComplexCondition(r) => r.rule_name(),
            BuiltinRule::MagicNumber(r) => r.rule_name(),
            BuiltinRule::MissingComments(r) => r.rule_name(),
            BuiltinRule::DeadCode(r) => r.rule_name(),
            BuiltinRule::UnusedVariable(r) => r.rule_name(),
            BuiltinRule::HardcodedCredentials(r) => r.rule_name(),
            BuiltinRule::UnsafeInput(r) => r.rule_name(),
            BuiltinRule::InefficientAlgorithm(r) => r.rule_name(),
            BuiltinRule::ResourceLeak(r) => r.rule_name(),
        }
    }

    open spec fn rule_category(&self) -> RuleCategory {
        match self {
            BuiltinRule::LineLength(r) => r.rule_category(),
            BuiltinRule::ConsistentIndentation(r) => r.rule_category(),
            BuiltinRule::NamingConvention(r) => r.rule_category(),
            BuiltinRule::LongFunction(r) => r.rule_category(),
            BuiltinRule::ComplexCondition(r) => r.rule_category(),
            BuiltinRule::MagicNumber(r) => r.rule_category(),
            BuiltinRule::MissingComments(r) => r.rule_category(),
            BuiltinRule::DeadCode(r) => r.rule_category(),
            BuiltinRule::UnusedVariable(r) => r.rule_category(),
            BuiltinRule::HardcodedCredentials(r) => r.rule_category(),
            BuiltinRule::UnsafeInput(r) => r.rule_category(),
            BuiltinRule::InefficientAlgorithm(r) => r.rule_category(),
            BuiltinRule::ResourceLeak(r) => r.rule_category(),
        }
    }

    open spec fn rule_severity(&self) -> Severity {
        match self {
            BuiltinRule::LineLength(r) => r.rule_severity(),
            BuiltinRule::ConsistentIndentation(r) => r.rule_severity(),
            BuiltinRule::NamingConvention(r) => r.rule_severity(),
            BuiltinRule::LongFunction(r) => r.rule_severity(),
            BuiltinRule::ComplexCondition(r) => r.rule_severity(),
            BuiltinRule::MagicNumber(r) => r.rule_severity(),
            BuiltinRule::MissingComments(r) => r.rule_severity(),
            BuiltinRule::DeadCode(r) => r.rule_severity(),
            BuiltinRule::UnusedVariable(r) => r.rule_severity(),
            BuiltinRule::HardcodedCredentials(r) => r.rule_severity(),
            BuiltinRule::UnsafeInput(r) => r.rule_severity(),
            BuiltinRule::InefficientAlgorithm(r) => r.rule_severity(),
            BuiltinRule::ResourceLeak(r) => r.rule_severity(),
        }
    }

    open spec fn applies_to(&self, language: Seq<char>) -> bool {
        match self {
            BuiltinRule::LineLength(r) => r.applies_to(language),
            BuiltinRule::ConsistentIndentation(r) => r.applies_to(language),
            BuiltinRule::NamingConvention(r) => r.applies_to(language),
            BuiltinRule::LongFunction(r) => r.applies_to(language),
            BuiltinRule::ComplexCondition(r) => r.applies_to(language),
            BuiltinRule::MagicNumber(r) => r.applies_to(language),
            BuiltinRule::MissingComments(r) => r.applies_to(language),
            BuiltinRule::DeadCode(r) => r.applies_to(language),
            BuiltinRule::UnusedVariable(r) => r.applies_to(language),
            BuiltinRule::HardcodedCredentials(r) => r.applies_to(language),
            BuiltinRule::UnsafeInput(r) => r.applies_to(language),
            BuiltinRule::InefficientAlgorithm(r) => r.applies_to(language),
            BuiltinRule::ResourceLeak(r) => r.applies_to(language),
        }
    }

    open spec fn rule_issues(&self, diff: GitDiffModel) -> Seq<IssueModel> {
        match self {
            BuiltinRule::LineLength(r) => r.rule_issues(diff),
            BuiltinRule::ConsistentIndentation(r) => r.rule_issues(diff),
            BuiltinRule::NamingConvention(r) => r.rule_issues(diff),
            BuiltinRule::LongFunction(r) => r.rule_issues(diff),
            BuiltinRule::ComplexCondition(r) => r.rule_issues(diff),
            BuiltinRule::MagicNumber(r) => r.rule_issues(diff),
            BuiltinRule::MissingComments(r) => r.rule_issues(diff),
            BuiltinRule::DeadCode(r) => r.rule_issues(diff),
            BuiltinRule::UnusedVariable(r) => r.rule_issues(diff),
            BuiltinRule::HardcodedCredentials(r) => r.rule_issues(diff),
            BuiltinRule::UnsafeInput(r) => r.rule_issues(diff),
            BuiltinRule::InefficientAlgorithm(r) => r.rule_issues(diff),
            BuiltinRule::ResourceLeak(r) => r.rule_issues(diff),
        }
    }

    fn name(&self) -> (res: &str) {
        match self {
            BuiltinRule::LineLength(r) => r.name(),
            BuiltinRule::ConsistentIndentation(r) => r.name(),
            BuiltinRule::NamingConvention(r) => r.name(),
            BuiltinRule::LongFunction(r) => r.name(),
            BuiltinRule::ComplexCondition(r) => r.name(),
            BuiltinRule::MagicNumber(r) => r.name(),
            BuiltinRule::MissingComments(r) => r.name(),
            BuiltinRule::DeadCode(r) => r.name(),
            BuiltinRule::UnusedVariable(r) => r.name(),
            BuiltinRule::HardcodedCredentials(r) => r.name(),
            BuiltinRule::UnsafeInput(r) => r.name(),
            BuiltinRule::InefficientAlgorithm(r) => r.name(),
            BuiltinRule::ResourceLeak(r) => r.name(),
        }
    }

    fn category(&self) -> (res: RuleCategory) {
        match self {
            BuiltinRule::LineLength(r) => r.category(),
            BuiltinRule::ConsistentIndentation(r) => r.category(),
            BuiltinRule::NamingConvention(r) => r.category(),
            BuiltinRule::LongFunction(r) => r.category(),
            BuiltinRule::ComplexCondition(r) => r.category(),
            BuiltinRule::MagicNumber(r) => r.category(),
            BuiltinRule::MissingComments(r) => r.category(),
            BuiltinRule::DeadCode(r) => r.category(),
            BuiltinRule::UnusedVariable(r) => r.category(),
            BuiltinRule::HardcodedCredentials(r) => r.category(),
            BuiltinRule::UnsafeInput(r) => r.category(),
            BuiltinRule::InefficientAlgorithm(r) => r.category(),
            BuiltinRule::ResourceLeak(r) => r.category(),
        }
    }

    fn apply(&self, context: &RuleContext) -> (res: Vec<Issue>) {
        match self {
            BuiltinRule::LineLength(r) => r.apply(context),
            BuiltinRule::ConsistentIndentation(r) => r.apply(context),
            BuiltinRule::NamingConvention(r) => r.apply(context),
            BuiltinRule::LongFunction(r) => r.apply(context),
            BuiltinRule::ComplexCondition(r) => r.apply(context),
            BuiltinRule::MagicNumber(r) => r.apply(context),
            BuiltinRule::MissingComments(r) => r.apply(context),
            BuiltinRule::DeadCode(r) => r.apply(context),
            BuiltinRule::UnusedVariable(r) => r.apply(context),
            BuiltinRule::HardcodedCredentials(r) => r.apply(context),
            BuiltinRule::UnsafeInput(r) => r.apply(context),
            BuiltinRule::InefficientAlgorithm(r) => r.apply(context),
            BuiltinRule::ResourceLeak(r) => r.apply(context),
        }
    }

    fn severity(&self) -> (res: Severity) {
        match self {
            BuiltinRule::LineLength(r) => r.severity(),
            BuiltinRule::ConsistentIndentation(r) => r.severity(),
            BuiltinRule::NamingConvention(r) => r.severity(),
            BuiltinRule::LongFunction(r) => r.severity(),
            BuiltinRule::ComplexCondition(r) => r.severity(),
            BuiltinRule::MagicNumber(r) => r.severity(),
            BuiltinRule::MissingComments(r) => r.severity(),
            BuiltinRule::DeadCode(r) => r.severity(),
            BuiltinRule::UnusedVariable(r) => r.severity(),
            BuiltinRule::HardcodedCredentials(r) => r.severity(),
            BuiltinRule::UnsafeInput(r) => r.severity(),
            BuiltinRule::InefficientAlgorithm(r) => r.severity(),
            BuiltinRule::ResourceLeak(r) => r.severity(),
        }
    }

    fn is_applicable(&self, language: &str) -> (res: bool) {
        match self {
            BuiltinRule::LineLength(r) => r.is_applicable(language),
            BuiltinRule::ConsistentIndentation(r) => r.is_applicable(language),
            BuiltinRule::NamingConvention(r) => r.is_applicable(language),
            BuiltinRule::LongFunction(r) => r.is_applicable(language),
            BuiltinRule::ComplexCondition(r) => r.is_applicable(language),
            BuiltinRule::MagicNumber(r) => r.is_applicable(language),
            BuiltinRule::MissingComments(r) => r.is_applicable(language),
            BuiltinRule::DeadCode(r) => r.is_applicable(language),
            BuiltinRule::UnusedVariable(r) => r.is_applicable(language),
            BuiltinRule::HardcodedCredentials(r) => r.is_applicable(language),
            BuiltinRule::UnsafeInput(r) => r.is_applicable(language),
            BuiltinRule::InefficientAlgorithm(r) => r.is_applicable(language),
            BuiltinRule::ResourceLeak(r) => r.is_applicable(language),
        }
    }
}

/// The style rules: line length (100 bytes), indentation and naming, all
/// with severity `Info`.
pub open spec fn style_rules_spec(v: Seq<BuiltinRule>) -> bool {
    &&& v.len() == 3
    &&& v[0] == BuiltinRule::LineLength(LineLength { max_length: 100, severity: Severity::Info })
    &&& v[1] == BuiltinRule::ConsistentIndentation(ConsistentIndentation { severity: Severity::Info })
    &&& v[2] == BuiltinRule::NamingConvention(NamingConvention { severity: Severity::Info })
}

/// The security rules: hard-coded credentials (`Error`) and unsafe input
/// (`Warning`).
pub open spec fn security_rules_spec(v: Seq<BuiltinRule>) -> bool {
    &&& v.len() == 2
    &&& v[0] == BuiltinRule::HardcodedCredentials(HardcodedCredentials { severity: Severity::Error })
    &&& v[1] == BuiltinRule::UnsafeInput(UnsafeInput { severity: Severity::Warning })
}

/// The performance rules: inefficient algorithms and resource leaks
/// (`Warning`).
pub open spec fn performance_rules_spec(v: Seq<BuiltinRule>) -> bool {
    &&& v.len() == 2
    &&& v[0] == BuiltinRule::InefficientAlgorithm(InefficientAlgorithm { severity: Severity::Warning })
    &&& v[1] == BuiltinRule::ResourceLeak(ResourceLeak { severity: Severity::Warning })
}

/// The complexity rules: long functions (50 lines, `Info`) and complex
/// conditions (3 logical operators, `Warning`).
pub open spec fn complexity_rules_spec(v: Seq<BuiltinRule>) -> bool {
    &&& v.len() == 2
    &&& v[0] == BuiltinRule::LongFunction(LongFunction { max_lines: 50, severity: Severity::Info })
    &&& v[1] == BuiltinRule::ComplexCondition(
        ComplexCondition { max_logical_ops: 3, severity: Severity::Warning },
    )
}

/// The best-practice rules: magic numbers and missing comments (`Info`).
pub open spec fn best_practices_rules_spec(v: Seq<BuiltinRule>) -> bool {
    &&& v.len() == 2
    &&& v[0] == BuiltinRule::MagicNumber(MagicNumber { severity: Severity::Info })
    &&& v[1] == BuiltinRule::MissingComments(MissingComments { severity: Severity::Info })
}

/// The bug rules: dead code and unused variables (`Warning`).
pub open spec fn bug_rules_spec(v: Seq<BuiltinRule>) -> bool {
    &&& v.len() == 2
    &&& v[0] == BuiltinRule::DeadCode(DeadCode { severity: Severity::Warning })
    &&& v[1] == BuiltinRule::UnusedVariable(UnusedVariable { severity: Severity::Warning })
}

/// The rule sets, one per category: style, security, performance,
/// complexity, best practices and bugs, in that order.
pub open spec fn all_rule_sets_spec(sets: Seq<(RuleCategory, Vec<BuiltinRule>)>) -> bool {
    &&& sets.len() == 6
    &&& sets[0].0 == RuleCategory::Style && style_rules_spec(sets[0].1@)
    &&& sets[1].0 == RuleCategory::Security && security_rules_spec(sets[1].1@)
    &&& sets[2].0 == RuleCategory::Performance && performance_rules_spec(sets[2].1@)
    &&& sets[3].0 == RuleCategory::Complexity && complexity_rules_spec(sets[3].1@)
    &&& sets[4].0 == RuleCategory::BestPractices && best_practices_rules_spec(sets[4].1@)
    &&& sets[5].0 == RuleCategory::Bugs && bug_rules_spec(sets[5].1@)
}

/// The rules of the sets, set after set.
pub open spec fn rules_of_sets(sets: Seq<(RuleCategory, Vec<BuiltinRule>)>) -> Seq<BuiltinRule>
    decreases sets.len(),
{
    if sets.len() == 0 {
        seq![]
    } else {
        rules_of_sets(sets.drop_last()) + sets.last().1@
    }
}

/// Law: in the rule sets of all categories every rule has the category of
/// its set, and the sets together hold every common rule exactly once, no
/// two of them under the same name.
pub proof fn law_rule_sets_partition_common_rules(
    sets: Seq<(RuleCategory, Vec<BuiltinRule>)>,
    common: Seq<BuiltinRule>,
)
    requires
        all_rule_sets_spec(sets),
        common_rules_spec(common),
    ensures
        forall|i: int, j: int|
            0 <= i < sets.len() && 0 <= j < sets[i].1@.len() ==> (#[trigger] sets[i].1@[j]).rule_category()
                == sets[i].0,
        rules_of_sets(sets).len() == common.len(),
        forall|r: BuiltinRule| rules_of_sets(sets).contains(r) <==> common.contains(r),
        rules_of_sets(sets).no_duplicates(),
        forall|a: int, b: int|
            0 <= a < b < rules_of_sets(sets).len() ==> (#[trigger] rules_of_sets(sets)[a]).rule_name()
                != (#[trigger] rules_of_sets(sets)[b]).rule_name(),
{
    reveal_with_fuel(rules_of_sets, 7);
    reveal_strlit("line-length");
    reveal_strlit("consistent-indentation");
    reveal_strlit("hardcoded-credentials");
    reveal_strlit("naming-convention");
    reveal_strlit("long-function");
    reveal_strlit("complex-condition");
    reveal_strlit("magic-number");
    reveal_strlit("missing-comments");
    reveal_strlit("dead-code");
    reveal_strlit("unused-variable");
    reveal_strlit("unsafe-input");
    reveal_strlit("inefficient-algorithm");
    reveal_strlit("resource-leak");
    let all = rules_of_sets(sets);
    assert(all =~= seq![
        common[0], common[1], common[2], common[9], common[10], common[11], common[12],
        common[3], common[4], common[5], common[6], common[7], common[8],
    ]);
    assert(all[0].rule_name().len() == 11 && all[0].rule_name()[0] == 'l');
    assert(all[1].rule_name().len() == 22 && all[1].rule_name()[0] == 'c');
    assert(all[2].rule_name().len() == 17 && all[2].rule_name()[0] == 'n');
    assert(all[3].rule_name().len() == 21 && all[3].rule_name()[0] == 'h');
    assert(all[4].rule_name().len() == 12 && all[4].rule_name()[0] == 'u');
    assert(all[5].rule_name().len() == 21 && all[5].rule_name()[0] == 'i');
    assert(all[6].rule_name().len() == 13 && all[6].rule_name()[0] == 'r');
    assert(all[7].rule_name().len() == 13 && all[7].rule_name()[0] == 'l');
    assert(all[8].rule_name().len() == 17 && all[8].rule_name()[0] == 'c');
    assert(all[9].rule_name().len() == 12 && all[9].rule_name()[0] == 'm');
    assert(all[10].rule_name().len() == 16 && all[10].rule_name()[0] == 'm');
    assert(all[11].rule_name().len() == 9 && all[11].rule_name()[0] == 'd');
    assert(all[12].rule_name().len() == 15 && all[12].rule_name()[0] == 'u');
    assert forall|a: int, b: int| 0 <= a < b < all.len() implies (#[trigger] all[a]).rule_name() != (
    #[trigger] all[b]).rule_name() by {
        assert(0 <= a <= 12 && 0 <= b <= 12);
        assert(a == 0 || a == 1 || a == 2 || a == 3 || a == 4 || a == 5 || a == 6 || a == 7 || a == 8 || a == 9
            || a == 10 || a == 11 || a == 12);
        assert(b == 0 || b == 1 || b == 2 || b == 3 || b == 4 || b == 5 || b == 6 || b == 7 || b == 8 || b == 9
            || b == 10 || b == 11 || b == 12);
    }
    assert forall|r: BuiltinRule| all.contains(r) <==> common.contains(r) by {
        if all.contains(r) {
            let k = choose|k: int| 0 <= k < all.len() && all[k] == r;
            assert(common.contains(r));
        }
        if common.contains(r) {
            let k = choose|k: int| 0 <= k < common.len() && common[k] == r;
            assert(all.contains(r));
        }
    }
}

/// Creates and assembles rule sets.
pub struct RuleFactory;

impl RuleFactory {
    /// All rule sets, one per category: style, security, performance,
    /// complexity, best practices and bugs, in that order.
    pub fn create_all_rules() -> (res: Vec<(RuleCategory, Vec<BuiltinRule>)>)
        ensures
            all_rule_sets_spec(res@),
    {
        let mut rule_sets: Vec<(RuleCategory, Vec<BuiltinRule>)> = Vec::new();
        rule_sets.push((RuleCategory::Style, Self::create_style_rules()));
        rule_sets.push((RuleCategory::Security, Self::create_security_rules()));
        rule_sets.push((RuleCategory::Performance, Self::create_performance_rules()));
        rule_sets.push((RuleCategory::Complexity, Self::create_complexity_rules()));
        rule_sets.push((RuleCategory::BestPractices, Self::create_best_practices_rules()));
        rule_sets.push((RuleCategory::Bugs, Self::create_bug_rules()));
        rule_sets
    }

    /// The rules for a language: the style rules followed by the security
    /// rules, whatever the language.
    pub fn create_language_rules(language: &str) -> (res: Vec<BuiltinRule>)
        ensures
            res@.len() == 5,
            style_rules_spec(res@.take(3)),
            security_rules_spec(res@.skip(3)),
    {
        let mut rules = Self::create_style_rules();
        let mut security = Self::create_security_rules();
        rules.append(&mut security);
        rules
    }

    /// The style rules.
    fn create_style_rules() -> (res: Vec<BuiltinRule>)
        ensures
            style_rules_spec(res@),
    {
        let mut v: Vec<BuiltinRule> = Vec::new();
        v.push(BuiltinRule::LineLength(LineLength { max_length: 100, severity: Severity::Info }));
        v.push(BuiltinRule::ConsistentIndentation(ConsistentIndentation { severity: Severity::Info }));
        v.push(BuiltinRule::NamingConvention(NamingConvention { severity: Severity::Info }));
        v
    }

    /// The security rules.
    fn create_security_rules() -> (res: Vec<BuiltinRule>)
        ensures
            security_rules_spec(res@),
    {
        let mut v: Vec<BuiltinRule> = Vec::new();
        v.push(BuiltinRule::HardcodedCredentials(HardcodedCredentials { severity: Severity::Error }));
        v.push(BuiltinRule::UnsafeInput(UnsafeInput { severity: Severity::Warning }));
        v
    }

    /// The performance rules.
    fn create_performance_rules() -> (res: Vec<BuiltinRule>)
        ensures
            performance_rules_spec(res@),
    {
        let mut v: Vec<BuiltinRule> = Vec::new();
        v.push(BuiltinRule::InefficientAlgorithm(InefficientAlgorithm { severity: Severity::Warning }));
        v.push(BuiltinRule::ResourceLeak(ResourceLeak { severity: Severity::Warning }));
        v
    }

    /// The complexity rules.
    fn create_complexity_rules() -> (res: Vec<BuiltinRule>)
        ensures
            complexity_rules_spec(res@),
    {
        let mut v: Vec<BuiltinRule> = Vec::new();
        v.push(BuiltinRule::LongFunction(LongFunction { max_lines: 50, severity: Severity::Info }));
        v.push(BuiltinRule::ComplexCondition(ComplexCondition { max_logical_ops: 3, severity: Severity::Warning }));
        v
    }

    /// The best-practice rules.
    fn create_best_practices_rules() -> (res: Vec<BuiltinRule>)
        ensures
            best_practices_rules_spec(res@),
    {
        let mut v: Vec<BuiltinRule> = Vec::new();
        v.push(BuiltinRule::MagicNumber(MagicNumber { severity: Severity::Info }));
        v.push(BuiltinRule::MissingComments(MissingComments { severity: Severity::Info }));
        v
    }

    /// The bug rules.
    fn create_bug_rules() -> (res: Vec<BuiltinRule>)
        ensures
            bug_rules_spec(res@),
    {
        let mut v: Vec<BuiltinRule> = Vec::new();
        v.push(BuiltinRule::DeadCode(DeadCode { severity: Severity::Warning }));
        v.push(BuiltinRule::UnusedVariable(UnusedVariable { severity: Severity::Warning }));
        v
    }
}

/// The common rules: the thirteen built-in rules in a fixed order.
pub open spec fn common_rules_spec(v: Seq<BuiltinRule>) -> bool {
    &&& v.len() == 13
    &&& v[0] == BuiltinRule::LineLength(LineLength { max_length: 100, severity: Severity::Info })
    &&& v[1] == BuiltinRule::ConsistentIndentation(ConsistentIndentation { severity: Severity::Info })
    &&& v[2] == BuiltinRule::NamingConvention(NamingConvention { severity: Severity::Info })
    &&& v[3] == BuiltinRule::LongFunction(LongFunction { max_lines: 50, severity: Severity::Info })
    &&& v[4] == BuiltinRule::ComplexCondition(ComplexCondition { max_logical_ops: 3, severity: Severity::Warning })
    &&& v[5] == BuiltinRule::MagicNumber(MagicNumber { severity: Severity::Info })
    &&& v[6] == BuiltinRule::MissingComments(MissingComments { severity: Severity::Info })
    &&& v[7] == BuiltinRule::DeadCode(DeadCode { severity: Severity::Warning })
    &&& v[8] == BuiltinRule::UnusedVariable(UnusedVariable { severity: Severity::Warning })
    &&& v[9] == BuiltinRule::HardcodedCredentials(HardcodedCredentials { severity: Severity::Error })
    &&& v[10] == BuiltinRule::UnsafeInput(UnsafeInput { severity: Severity::Warning })
    &&& v[11] == BuiltinRule::InefficientAlgorithm(InefficientAlgorithm { severity: Severity::Warning })
    &&& v[12] == BuiltinRule::ResourceLeak(ResourceLeak { severity: Severity::Warning })
}

/// All built-in rules, each with its default settings.
pub fn create_common_rules() -> (res: Vec<BuiltinRule>)
    ensures
        common_rules_spec(res@),
{
    let mut v: Vec<BuiltinRule> = Vec::new();
    v.push(BuiltinRule::LineLength(LineLength { max_length: 100, severity: Severity::Info }));
    v.push(BuiltinRule::ConsistentIndentation(ConsistentIndentation { severity: Severity::Info }));
    v.push(BuiltinRule::NamingConvention(NamingConvention { severity: Severity::Info }));
    v.push(BuiltinRule::LongFunction(LongFunction { max_lines: 50, severity: Severity::Info }));
    v.push(BuiltinRule::ComplexCondition(ComplexCondition { max_logical_ops: 3, severity: Severity::Warning }));
    v.push(BuiltinRule::MagicNumber(MagicNumber { severity: Severity::Info }));
    v.push(BuiltinRule::MissingComments(MissingComments { severity: Severity::Info }));
    v.push(BuiltinRule::DeadCode(DeadCode { severity: Severity::Warning }));
    v.push(BuiltinRule::UnusedVariable(UnusedVariable { severity: Severity::Warning }));
    v.push(BuiltinRule::HardcodedCredentials(HardcodedCredentials { severity: Severity::Error }));
    v.push(BuiltinRule::UnsafeInput(UnsafeInput { severity: Severity::Warning }));
    v.push(BuiltinRule::InefficientAlgorithm(InefficientAlgorithm { severity: Severity::Warning }));
    v.push(BuiltinRule::ResourceLeak(ResourceLeak { severity: Severity::Warning }));
    v
}

} // verus!
