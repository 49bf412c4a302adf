//! The analysis of a whole diff.
//!
//! Reading and parsing the changed files is the caller's part: for each
//! changed file it reports a `FileOutcome`, what it found on disk and what
//! parsing gave. From the parsed diff and those outcomes this module builds
//! the per-file analyses, counts the affected structures and kinds of change,
//! classifies the diff and writes its summary.

use vstd::prelude::*;
use vstd::string::StringExecFns;
use crate::errors::{tree_sitter_error_text, TreeSitterError};
use crate::tallies::{count_in, count_string, string_tally_view, tally, tally_strings};
use crate::text::{
    chars_of, decimal, extend_chars, extend_str, extend_string, is_prefix_of, join_parts,
    join_seqs, opt_string_view, push_decimal, starts_with, string_views, to_string, views,
};
use crate::tree_sitter_analyzer::analyzer::{
    analyzer_language, change_pattern_of, change_scope_of, class_count, class_pred, count_class,
    count_nodes, detect_language, determine_change_pattern, determine_change_scope,
    generate_java_file_summary, generate_rust_file_summary, java_file_summary, rust_file_summary,
    NodeClass,
};
use crate::tree_sitter_analyzer::model::{
    analysis_views, file_views, node_views, AffectedNode, AffectedNodeModel, ChangeAnalysis,
    ChangeAnalysisModel, ChangePattern, ChangePatternModel, ChangeScope, ChangeType,
    ChangedFileModel, DiffAnalysis, DiffAnalysisModel, FileAnalysis, FileAnalysisModel, GitDiff,
};

verus! {

// ---------------------------------------------------------------------------
// What the caller found
// ---------------------------------------------------------------------------

/// What parsing and analysing one file gave.
pub enum ParseOutcome {
    /// Parsing the file failed with this error.
    Failed(TreeSitterError),
    /// The file was parsed but analysing its changes failed with this error;
    /// the whole analysis then fails with it.
    AnalysisFailed(TreeSitterError),
    /// The nodes the changes affect, already refined for the file's language.
    Analyzed(Vec<AffectedNode>),
}

/// What the caller found for one changed file of an added or modified kind.
pub enum FileOutcome {
    /// No file at the path the diff names, under the project root.
    Missing,
    /// The file at `path` (the diff's path under the project root). `parse`
    /// is read only when the file's language is one the analyzer parses (see
    /// `analyzer_language`).
    Present { path: String, parse: ParseOutcome },
}

/// The abstract value of a parse outcome.
pub enum ParseOutcomeModel {
    Failed(TreeSitterError),
    AnalysisFailed(TreeSitterError),
    Analyzed(Seq<AffectedNodeModel>),
}

/// The abstract value of a file outcome.
pub enum FileOutcomeModel {
    Missing,
    Present { path: Seq<char>, parse: ParseOutcomeModel },
}

impl View for ParseOutcome {
    type V = ParseOutcomeModel;

    open spec fn view(&self) -> ParseOutcomeModel {
        match self {
            ParseOutcome::Failed(e) => ParseOutcomeModel::Failed(*e),
            ParseOutcome::AnalysisFailed(e) => ParseOutcomeModel::AnalysisFailed(*e),
            ParseOutcome::Analyzed(ns) => ParseOutcomeModel::Analyzed(node_views(ns@)),
        }
    }
}

impl View for FileOutcome {
    type V = FileOutcomeModel;

    open spec fn view(&self) -> FileOutcomeModel {
        match self {
            FileOutcome::Missing => FileOutcomeModel::Missing,
            FileOutcome::Present { path, parse } => FileOutcomeModel::Present {
                path: path@,
                parse: parse@,
            },
        }
    }
}

/// The views of a sequence of outcomes.
pub open spec fn outcome_views(v: Seq<FileOutcome>) -> Seq<FileOutcomeModel> {
    v.map_values(|o: FileOutcome| o@)
}

/// The number of analysed nodes among the first `n` outcomes.
pub open spec fn outcome_nodes(os: Seq<FileOutcomeModel>, n: int) -> nat
    decreases n,
{
    if n <= 0 {
        0
    } else {
        outcome_nodes(os, n - 1) + match os[n - 1] {
            FileOutcomeModel::Present { parse: ParseOutcomeModel::Analyzed(ns), .. } => ns.len(),
            _ => 0,
        }
    }
}

// ---------------------------------------------------------------------------
// Per-file analyses
// ---------------------------------------------------------------------------

/// The summary of a parsed file of a language without its own summary.
pub open spec fn generic_file_summary(path: Seq<char>, ct: ChangeType, n: nat) -> Seq<char> {
    "文件 "@ + path + " 被"@ + match ct {
        ChangeType::Added => "新增"@,
        ChangeType::Modified => "修改"@,
        _ => "变更"@,
    } + "。影响了 "@ + decimal(n) + " 个代码结构。"@
}

/// The summary of a parsed file: Java and Rust files have their own.
pub open spec fn parsed_file_summary(
    language: Seq<char>,
    path: Seq<char>,
    ct: ChangeType,
    ns: Seq<AffectedNodeModel>,
) -> Seq<char> {
    if language == "java"@ {
        java_file_summary(path, ns)
    } else if language == "rust"@ {
        rust_file_summary(path, ns)
    } else {
        generic_file_summary(path, ct, ns.len())
    }
}

/// The summary of a deleted, renamed or otherwise changed file, which is not
/// read.
pub open spec fn unread_file_summary(ct: ChangeType) -> Seq<char> {
    "文件被"@ + match ct {
        ChangeType::Deleted => "删除"@,
        ChangeType::Renamed => "重命名"@,
        _ => "其他操作"@,
    }
}

/// The summary of a file whose language the analyzer does not parse.
pub open spec fn unsupported_summary() -> Seq<char> {
    "不支持的文件类型，无法进行 tree-sitter 分析"@
}

/// The analyses built so far, and the languages of the files read so far.
pub struct ExamineState {
    pub analyses: Seq<FileAnalysisModel>,
    pub languages: Seq<Seq<char>>,
}

/// A file analysis with no affected nodes.
pub open spec fn bare_analysis(
    path: Seq<char>,
    language: Seq<char>,
    ct: ChangeType,
    summary: Seq<char>,
) -> FileAnalysisModel {
    FileAnalysisModel {
        path,
        language,
        change_type: ct,
        affected_nodes: seq![],
        summary: Some(summary),
    }
}

/// The analysis of one more changed file, given what the caller found.
pub open spec fn examine_step(st: ExamineState, f: ChangedFileModel, o: FileOutcomeModel) -> Result<
    ExamineState,
    TreeSitterError,
> {
    if f.change_type == ChangeType::Added || f.change_type == ChangeType::Modified {
        match o {
            FileOutcomeModel::Missing => Ok(st),
            FileOutcomeModel::Present { path, parse } => match analyzer_language(path) {
                None => Ok(
                    ExamineState {
                        analyses: st.analyses.push(
                            bare_analysis(path, "unknown"@, f.change_type, unsupported_summary()),
                        ),
                        languages: st.languages,
                    },
                ),
                Some(l) => match parse {
                    ParseOutcomeModel::AnalysisFailed(e) => Err(e),
                    ParseOutcomeModel::Failed(e) => Ok(
                        ExamineState {
                            analyses: st.analyses.push(
                                bare_analysis(
                                    path,
                                    l,
                                    f.change_type,
                                    "无法解析文件: "@ + tree_sitter_error_text(e),
                                ),
                            ),
                            languages: st.languages.push(l),
                        },
                    ),
                    ParseOutcomeModel::Analyzed(ns) => Ok(
                        ExamineState {
                            analyses: st.analyses.push(
                                FileAnalysisModel {
                                    path,
                                    language: l,
                                    change_type: f.change_type,
                                    affected_nodes: ns,
                                    summary: Some(parsed_file_summary(l, path, f.change_type, ns)),
                                },
                            ),
                            languages: st.languages.push(l),
                        },
                    ),
                },
            },
        }
    } else {
        Ok(
            ExamineState {
                analyses: st.analyses.push(
                    bare_analysis(f.path, "unknown"@, f.change_type, unread_file_summary(f.change_type)),
                ),
                languages: st.languages,
            },
        )
    }
}

/// The analyses of the first `n` files, or the first error met.
pub open spec fn examine_fold(fs: Seq<ChangedFileModel>, os: Seq<FileOutcomeModel>, n: int) -> Result<
    ExamineState,
    TreeSitterError,
>
    decreases n,
{
    if n <= 0 {
        Ok(ExamineState { analyses: seq![], languages: seq![] })
    } else {
        match examine_fold(fs, os, n - 1) {
            Err(e) => Err(e),
            Ok(st) => examine_step(st, fs[n - 1], os[n - 1]),
        }
    }
}

/// Once the analysis has failed, it stays failed with the same error.
proof fn lemma_examine_fold_err(fs: Seq<ChangedFileModel>, os: Seq<FileOutcomeModel>, n: int, m: int)
    requires
        0 <= n <= m,
        examine_fold(fs, os, n) is Err,
    ensures
        examine_fold(fs, os, m) == examine_fold(fs, os, n),
    decreases m - n,
{
    if n < m {
        lemma_examine_fold_err(fs, os, n, m - 1);
    }
}

/// All affected nodes of a sequence of file analyses, in order.
pub open spec fn all_nodes(fas: Seq<FileAnalysisModel>) -> Seq<AffectedNodeModel>
    decreases fas.len(),
{
    if fas.len() == 0 {
        seq![]
    } else {
        all_nodes(fas.drop_last()) + fas.last().affected_nodes
    }
}

proof fn lemma_all_nodes_push(fas: Seq<FileAnalysisModel>, a: FileAnalysisModel)
    ensures
        all_nodes(fas.push(a)) == all_nodes(fas) + a.affected_nodes,
{
    assert(fas.push(a).drop_last() =~= fas);
}

pub proof fn lemma_all_nodes_take(fas: Seq<FileAnalysisModel>, i: int)
    requires
        0 <= i < fas.len(),
    ensures
        all_nodes(fas.take(i + 1)) == all_nodes(fas.take(i)) + fas[i].affected_nodes,
        all_nodes(fas.take(i + 1)).len() <= all_nodes(fas).len(),
    decreases fas.len() - i,
{
    assert(fas.take(i + 1).drop_last() =~= fas.take(i));
    if i + 1 < fas.len() {
        lemma_all_nodes_take(fas, i + 1);
    } else {
        assert(fas.take(i + 1) =~= fas);
    }
}

/// Counting over a concatenation adds the counts.
pub proof fn lemma_count_nodes_concat(
    a: Seq<AffectedNodeModel>,
    b: Seq<AffectedNodeModel>,
    p: spec_fn(AffectedNodeModel) -> bool,
)
    ensures
        count_nodes(a + b, p) == count_nodes(a, p) + count_nodes(b, p),
    decreases b.len(),
{
    if b.len() == 0 {
        assert(a + b =~= a);
    } else {
        assert((a + b).drop_last() =~= a + b.drop_last());
        lemma_count_nodes_concat(a, b.drop_last(), p);
    }
}

/// Builds a string from a literal.
fn text(s: &str) -> (res: String)
    ensures
        res@ == s@,
{
    String::from_str(s)
}

/// Builds a string from a literal followed by a string.
fn text_then(s: &str, t: &String) -> (res: String)
    ensures
        res@ == s@ + t@,
{
    let mut v: Vec<char> = Vec::new();
    extend_str(&mut v, s);
    extend_string(&mut v, t);
    to_string(&v)
}

/// The summary of a parsed file (see `parsed_file_summary`).
pub fn file_summary(
    language: &String,
    path: &String,
    ct: ChangeType,
    nodes: &Vec<AffectedNode>,
) -> (res: String)
    ensures
        res@ == parsed_file_summary(language@, path@, ct, node_views(nodes@)),
{
    if crate::text::string_eq_str(language, "java") {
        generate_java_file_summary(path, nodes)
    } else if crate::text::string_eq_str(language, "rust") {
        generate_rust_file_summary(path, nodes)
    } else {
        let mut v: Vec<char> = Vec::new();
        extend_str(&mut v, "文件 ");
        extend_string(&mut v, path);
        extend_str(&mut v, " 被");
        match ct {
            ChangeType::Added => extend_str(&mut v, "新增"),
            ChangeType::Modified => extend_str(&mut v, "修改"),
            _ => extend_str(&mut v, "变更"),
        }
        extend_str(&mut v, "。影响了 ");
        push_decimal(&mut v, nodes.len());
        extend_str(&mut v, " 个代码结构。");
        to_string(&v)
    }
}

/// The analyses of all changed files and the languages of the files read,
/// in diff order; the first analysis error met fails the whole.
pub fn examine_files(files: &Vec<crate::tree_sitter_analyzer::model::ChangedFile>, outcomes: Vec<FileOutcome>) -> (res: Result<
    (Vec<FileAnalysis>, Vec<String>),
    TreeSitterError,
>)
    requires
        outcomes.len() == files.len(),
    ensures
        res is Ok ==> examine_fold(file_views(files@), outcome_views(outcomes@), files.len() as int)
            == Ok::<ExamineState, TreeSitterError>(
            ExamineState {
                analyses: analysis_views(res->Ok_0.0@),
                languages: string_views(res->Ok_0.1@),
            },
        ),
        res is Ok ==> all_nodes(analysis_views(res->Ok_0.0@)).len() <= outcome_nodes(
            outcome_views(outcomes@),
            files.len() as int,
        ),
        res is Err ==> examine_fold(file_views(files@), outcome_views(outcomes@), files.len() as int)
            == Err::<ExamineState, TreeSitterError>(res->Err_0),
{
    let ghost fs = file_views(files@);
    let ghost orig = outcomes@;
    let ghost os = outcome_views(orig);
    let mut rest = outcomes;
    let mut analyses: Vec<FileAnalysis> = Vec::new();
    let mut languages: Vec<String> = Vec::new();
    let mut i: usize = 0;
    assert(analysis_views(analyses@) =~= seq![]);
    assert(string_views(languages@) =~= seq![]);
    while i < files.len()
        invariant
            fs == file_views(files@),
            os == outcome_views(orig),
            orig == outcomes@,
            orig.len() == files.len(),
            i <= files.len(),
            rest@ == orig.skip(i as int),
            examine_fold(fs, os, i as int) == Ok::<ExamineState, TreeSitterError>(
                ExamineState {
                    analyses: analysis_views(analyses@),
                    languages: string_views(languages@),
                },
            ),
            all_nodes(analysis_views(analyses@)).len() <= outcome_nodes(os, i as int),
        decreases files.len() - i,
    {
        let o = rest.remove(0);
        proof {
            assert(orig.skip(i as int).remove(0) =~= orig.skip(i + 1));
            assert(o == orig[i as int]);
            assert(os[i as int] == o@);
        }
        let ghost av = analysis_views(analyses@);
        let ghost lv = string_views(languages@);
        let ghost st = ExamineState { analyses: av, languages: lv };
        proof {
            assert(examine_fold(fs, os, i + 1) == examine_step(st, fs[i as int], os[i as int]));
        }
        let f = &files[i];
        assert(fs[i as int] == f@);
        let ct = f.change_type;
        if ct == ChangeType::Added || ct == ChangeType::Modified {
            match o {
                FileOutcome::Missing => {},
                FileOutcome::Present { path, parse } => {
                    match detect_language(path.as_str()) {
                        None => {
                            let a = FileAnalysis {
                                path,
                                language: text("unknown"),
                                change_type: ct,
                                affected_nodes: Vec::new(),
                                summary: Some(text("不支持的文件类型，无法进行 tree-sitter 分析")),
                            };
                            analyses.push(a);
                            proof {
                                assert(analyses@.last()@.affected_nodes =~= seq![]);
                                lemma_all_nodes_push(av, analyses@.last()@);
                                assert(analysis_views(analyses@) =~= av.push(analyses@.last()@));
                                assert(analyses@.last()@ == bare_analysis(path@, "unknown"@, ct, unsupported_summary()));
                            }
                        },
                        Some(l) => {
                            match parse {
                                ParseOutcome::AnalysisFailed(e) => {
                                    proof {
                                        assert(analyzer_language(path@) == Some(l@));
                                        assert(os[i as int] == FileOutcomeModel::Present {
                                            path: path@,
                                            parse: ParseOutcomeModel::AnalysisFailed(e),
                                        });
                                        assert(examine_fold(fs, os, i + 1) == Err::<ExamineState, TreeSitterError>(e));
                                        lemma_examine_fold_err(fs, os, i + 1, files.len() as int);
                                    }
                                    return Err(e);
                                },
                                ParseOutcome::Failed(e) => {
                                    let msg = text_then("无法解析文件: ", &e.message());
                                    let a = FileAnalysis {
                                        path,
                                        language: l.clone(),
                                        change_type: ct,
                                        affected_nodes: Vec::new(),
                                        summary: Some(msg),
                                    };
                                    analyses.push(a);
                                    languages.push(l);
                                    proof {
                                        assert(analyses@.last()@.affected_nodes =~= seq![]);
                                lemma_all_nodes_push(av, analyses@.last()@);
                                        assert(analysis_views(analyses@) =~= av.push(
                                            analyses@.last()@,
                                        ));
                                        assert(string_views(languages@) =~= lv.push(
                                            languages@.last()@,
                                        ));
                                    }
                                },
                                ParseOutcome::Analyzed(nodes) => {
                                    let summary = file_summary(&l, &path, ct, &nodes);
                                    let a = FileAnalysis {
                                        path,
                                        language: l.clone(),
                                        change_type: ct,
                                        affected_nodes: nodes,
                                        summary: Some(summary),
                                    };
                                    analyses.push(a);
                                    languages.push(l);
                                    proof {
                                        
                                lemma_all_nodes_push(av, analyses@.last()@);
                                        assert(analysis_views(analyses@) =~= av.push(
                                            analyses@.last()@,
                                        ));
                                        assert(string_views(languages@) =~= lv.push(
                                            languages@.last()@,
                                        ));
                                    }
                                },
                            }
                        },
                    }
                },
            }
        } else {
            let mut sv: Vec<char> = Vec::new();
            extend_str(&mut sv, "文件被");
            match ct {
                ChangeType::Deleted => extend_str(&mut sv, "删除"),
                ChangeType::Renamed => extend_str(&mut sv, "重命名"),
                _ => extend_str(&mut sv, "其他操作"),
            }
            let summary = to_string(&sv);
            let a = FileAnalysis {
                path: f.path.clone(),
                language: text("unknown"),
                change_type: ct,
                affected_nodes: Vec::new(),
                summary: Some(summary),
            };
            analyses.push(a);
            proof {
                assert(analyses@.last()@.affected_nodes =~= seq![]);
                                lemma_all_nodes_push(av, analyses@.last()@);
                assert(analysis_views(analyses@) =~= av.push(analyses@.last()@));
            }
        }
        i = i + 1;
    }
    Ok((analyses, languages))
}

// ---------------------------------------------------------------------------
// Counts, classification and the overall summary
// ---------------------------------------------------------------------------

/// The number of affected nodes of all file analyses.
fn total_nodes(fas: &Vec<FileAnalysis>) -> (res: usize)
    requires
        all_nodes(analysis_views(fas@)).len() <= usize::MAX,
    ensures
        res == all_nodes(analysis_views(fas@)).len(),
{
    let ghost av = analysis_views(fas@);
    let mut n: usize = 0;
    let mut i: usize = 0;
    while i < fas.len()
        invariant
            av == analysis_views(fas@),
            all_nodes(av).len() <= usize::MAX,
            i <= fas.len(),
            n == all_nodes(av.take(i as int)).len(),
        decreases fas.len() - i,
    {
        proof {
            lemma_all_nodes_take(av, i as int);
        }
        n = n + fas[i].affected_nodes.len();
        i = i + 1;
    }
    proof {
        assert(av.take(i as int) =~= av);
    }
    n
}

/// The number of affected nodes of a class, over all file analyses.
fn class_total(fas: &Vec<FileAnalysis>, c: NodeClass) -> (res: usize)
    requires
        all_nodes(analysis_views(fas@)).len() <= usize::MAX,
    ensures
        res == class_count(all_nodes(analysis_views(fas@)), c),
{
    let ghost av = analysis_views(fas@);
    let mut n: usize = 0;
    let mut i: usize = 0;
    while i < fas.len()
        invariant
            av == analysis_views(fas@),
            all_nodes(av).len() <= usize::MAX,
            i <= fas.len(),
            n == class_count(all_nodes(av.take(i as int)), c),
        decreases fas.len() - i,
    {
        proof {
            lemma_all_nodes_take(av, i as int);
            lemma_count_nodes_concat(
                all_nodes(av.take(i as int)),
                av[i as int].affected_nodes,
                class_pred(c),
            );
            crate::tree_sitter_analyzer::analyzer::lemma_count_nodes_bound(
                all_nodes(av.take(i + 1)),
                class_pred(c),
            );
        }
        n = n + count_class(&fas[i].affected_nodes, c);
        i = i + 1;
    }
    proof {
        assert(av.take(i as int) =~= av);
    }
    n
}

/// Each language with the number of its files, as the summary lists it.
pub open spec fn language_parts(t: Seq<(Seq<char>, nat)>) -> Seq<Seq<char>> {
    t.map_values(|e: (Seq<char>, nat)| e.0 + " ("@ + decimal(e.1) + "个文件)"@)
}

/// The sentence on the languages of the files read, each with the number of
/// its files, in order of first appearance.
pub open spec fn languages_sentence(languages: Seq<Seq<char>>) -> Seq<char> {
    if tally(languages).len() > 0 {
        "涉及语言: "@ + join_seqs(language_parts(tally(languages)), ", "@)
    } else {
        "未检测到支持的编程语言"@
    }
}

/// The description of a change pattern.
pub open spec fn pattern_description(p: ChangePatternModel) -> Seq<char> {
    match p {
        ChangePatternModel::FeatureImplementation => "新功能实现"@,
        ChangePatternModel::BugFix => "bug修复"@,
        ChangePatternModel::Refactoring => "代码重构"@,
        ChangePatternModel::ModelChange => "模型变更"@,
        ChangePatternModel::BehaviorChange => "行为变更"@,
        ChangePatternModel::ConfigurationChange => "配置变更"@,
        ChangePatternModel::MixedChange => "混合变更"@,
        ChangePatternModel::LanguageSpecificChange(s) => if is_prefix_of("Java"@, s) {
            "Java特定变更"@
        } else if is_prefix_of("Rust"@, s) {
            "Rust特定变更"@
        } else {
            "特定语言变更"@
        },
    }
}

/// The description of a change scope.
pub open spec fn scope_description(s: ChangeScope) -> Seq<char> {
    match s {
        ChangeScope::Minor => "轻微"@,
        ChangeScope::Moderate => "中等"@,
        ChangeScope::Major => "重大"@,
    }
}

/// The overall summary of a diff analysis.
pub open spec fn overall_summary_text(
    languages: Seq<Seq<char>>,
    ca: ChangeAnalysisModel,
    additions: nat,
    deletions: nat,
    modifications: nat,
    total: nat,
) -> Seq<char> {
    "变更分析完成。"@ + languages_sentence(languages) + "\n"@ + "变更统计: "@ + decimal(additions)
        + "个新增, "@ + decimal(deletions) + "个删除, "@ + decimal(modifications) + "个修改，共影响"@
        + decimal(total) + "个代码结构"@ + "\n"@ + "结构变更: "@ + decimal(ca.function_changes)
        + "个函数, "@ + decimal(ca.type_changes) + "个类型, "@ + decimal(ca.method_changes)
        + "个方法, "@ + decimal(ca.interface_changes) + "个接口, "@ + decimal(ca.other_changes)
        + "个其他"@ + "\n变更类型: "@ + pattern_description(ca.change_pattern) + " ("@
        + scope_description(ca.change_scope) + ")"@
}

/// The counts, classification and summary of a set of file analyses.
pub open spec fn analysis_of_state(st: ExamineState) -> DiffAnalysisModel {
    let ns = all_nodes(st.analyses);
    let f = class_count(ns, NodeClass::Structure(0));
    let t = class_count(ns, NodeClass::Structure(1));
    let m = class_count(ns, NodeClass::Structure(2));
    let i = class_count(ns, NodeClass::Structure(3));
    let o = class_count(ns, NodeClass::Structure(4));
    let additions = class_count(ns, NodeClass::Addition);
    let deletions = class_count(ns, NodeClass::Deletion);
    let modifications = class_count(ns, NodeClass::Modification);
    let ca = ChangeAnalysisModel {
        function_changes: f,
        type_changes: t,
        method_changes: m,
        interface_changes: i,
        other_changes: o,
        change_pattern: change_pattern_of(
            st.analyses,
            f,
            t,
            m,
            i,
            count_in(st.languages, "java"@),
            count_in(st.languages, "rust"@),
            additions,
            deletions,
        ),
        change_scope: change_scope_of(ns.len(), additions, deletions, t, m, i),
    };
    DiffAnalysisModel {
        file_analyses: st.analyses,
        overall_summary: overall_summary_text(
            st.languages,
            ca,
            additions,
            deletions,
            modifications,
            ns.len(),
        ),
        change_analysis: ca,
    }
}

/// The analysis of a parsed diff, given what the caller found for each
/// changed file; or the first analysis error met.
pub open spec fn diff_analysis_of(fs: Seq<ChangedFileModel>, os: Seq<FileOutcomeModel>) -> Result<
    DiffAnalysisModel,
    TreeSitterError,
> {
    match examine_fold(fs, os, fs.len() as int) {
        Ok(st) => Ok(analysis_of_state(st)),
        Err(e) => Err(e),
    }
}

/// Appends the sentence on languages.
fn push_languages_sentence(v: &mut Vec<char>, languages: &Vec<String>)
    ensures
        final(v)@ == old(v)@ + languages_sentence(string_views(languages@)),
{
    let ghost v0 = v@;
    let t = tally_strings(languages);
    let ghost tv = string_tally_view(t@);
    if t.len() > 0 {
        let mut parts: Vec<Vec<char>> = Vec::new();
        let mut i: usize = 0;
        while i < t.len()
            invariant
                tv == string_tally_view(t@),
                i <= t.len(),
                views(parts@) == language_parts(tv).take(i as int),
            decreases t.len() - i,
        {
            let ghost before = views(parts@);
            let mut p = chars_of(t[i].0.as_str());
            extend_str(&mut p, " (");
            push_decimal(&mut p, t[i].1);
            extend_str(&mut p, "个文件)");
            let ghost pv = p@;
            parts.push(p);
            proof {
                assert(views(parts@) =~= before.push(pv));
                assert(tv[i as int] == (t@[i as int].0@, t@[i as int].1 as nat));
                assert(language_parts(tv)[i as int] == pv);
                assert(views(parts@) =~= language_parts(tv).take(i + 1));
            }
            i = i + 1;
        }
        assert(language_parts(tv).take(i as int) =~= language_parts(tv));
        extend_str(v, "涉及语言: ");
        let j = join_parts(&parts, ", ");
        extend_chars(v, j.as_slice());
        assert(v@ =~= v0 + languages_sentence(string_views(languages@)));
    } else {
        extend_str(v, "未检测到支持的编程语言");
    }
}

/// Appends the description of a change pattern.
fn push_pattern_description(v: &mut Vec<char>, p: &ChangePattern)
    ensures
        final(v)@ == old(v)@ + pattern_description(p@),
{
    match p {
        ChangePattern::FeatureImplementation => extend_str(v, "新功能实现"),
        ChangePattern::BugFix => extend_str(v, "bug修复"),
        ChangePattern::Refactoring => extend_str(v, "代码重构"),
        ChangePattern::ModelChange => extend_str(v, "模型变更"),
        ChangePattern::BehaviorChange => extend_str(v, "行为变更"),
        ChangePattern::ConfigurationChange => extend_str(v, "配置变更"),
        ChangePattern::MixedChange => extend_str(v, "混合变更"),
        ChangePattern::LanguageSpecificChange(s) => {
            let c = chars_of(s.as_str());
            if starts_with(c.as_slice(), "Java") {
                extend_str(v, "Java特定变更")
            } else if starts_with(c.as_slice(), "Rust") {
                extend_str(v, "Rust特定变更")
            } else {
                extend_str(v, "特定语言变更")
            }
        },
    }
}

/// The counts, classification and summary of a set of file analyses, with
/// the languages of the files read (see `analysis_of_state`).
pub fn summarize_analyses(analyses: Vec<FileAnalysis>, languages: &Vec<String>) -> (res: DiffAnalysis)
    requires
        all_nodes(analysis_views(analyses@)).len() <= usize::MAX,
    ensures
        res@ == analysis_of_state(
            ExamineState {
                analyses: analysis_views(analyses@),
                languages: string_views(languages@),
            },
        ),
{
    let ghost av = analysis_views(analyses@);
    let ghost ns = all_nodes(av);
    let total = total_nodes(&analyses);
    let function_changes = class_total(&analyses, NodeClass::Structure(0));
    let type_changes = class_total(&analyses, NodeClass::Structure(1));
    let method_changes = class_total(&analyses, NodeClass::Structure(2));
    let interface_changes = class_total(&analyses, NodeClass::Structure(3));
    let other_changes = class_total(&analyses, NodeClass::Structure(4));
    let additions = class_total(&analyses, NodeClass::Addition);
    let deletions = class_total(&analyses, NodeClass::Deletion);
    let modifications = class_total(&analyses, NodeClass::Modification);
    let java_changes = count_string(languages, &text("java"));
    let rust_changes = count_string(languages, &text("rust"));
    let change_pattern = determine_change_pattern(
        &analyses,
        function_changes,
        type_changes,
        method_changes,
        interface_changes,
        java_changes,
        rust_changes,
        additions,
        deletions,
    );
    let change_scope = determine_change_scope(
        total,
        additions,
        deletions,
        modifications,
        type_changes,
        method_changes,
        interface_changes,
    );
    let mut v: Vec<char> = Vec::new();
    extend_str(&mut v, "变更分析完成。");
    push_languages_sentence(&mut v, languages);
    extend_str(&mut v, "\n");
    extend_str(&mut v, "变更统计: ");
    push_decimal(&mut v, additions);
    extend_str(&mut v, "个新增, ");
    push_decimal(&mut v, deletions);
    extend_str(&mut v, "个删除, ");
    push_decimal(&mut v, modifications);
    extend_str(&mut v, "个修改，共影响");
    push_decimal(&mut v, total);
    extend_str(&mut v, "个代码结构");
    extend_str(&mut v, "\n");
    extend_str(&mut v, "结构变更: ");
    push_decimal(&mut v, function_changes);
    extend_str(&mut v, "个函数, ");
    push_decimal(&mut v, type_changes);
    extend_str(&mut v, "个类型, ");
    push_decimal(&mut v, method_changes);
    extend_str(&mut v, "个方法, ");
    push_decimal(&mut v, interface_changes);
    extend_str(&mut v, "个接口, ");
    push_decimal(&mut v, other_changes);
    extend_str(&mut v, "个其他");
    extend_str(&mut v, "\n变更类型: ");
    push_pattern_description(&mut v, &change_pattern);
    extend_str(&mut v, " (");
    match change_scope {
        ChangeScope::Minor => extend_str(&mut v, "轻微"),
        ChangeScope::Moderate => extend_str(&mut v, "中等"),
        ChangeScope::Major => extend_str(&mut v, "重大"),
    }
    extend_str(&mut v, ")");
    let change_analysis = ChangeAnalysis {
        function_changes,
        type_changes,
        method_changes,
        interface_changes,
        other_changes,
        change_pattern,
        change_scope,
    };
    let ghost st = ExamineState { analyses: av, languages: string_views(languages@) };
    let res = DiffAnalysis { file_analyses: analyses, overall_summary: to_string(&v), change_analysis };
    assert(res@.change_analysis == analysis_of_state(st).change_analysis);
    assert(res@.overall_summary =~= analysis_of_state(st).overall_summary);
    res
}

/// The analysis of a parsed diff, given what the caller found for each of
/// its changed files, in order: per-file analyses, counts of affected
/// structures and kinds of change, the change pattern and scope, and the
/// overall summary; or the first analysis error met.
pub fn analyze_parsed_diff(diff: &GitDiff, outcomes: Vec<FileOutcome>) -> (res: Result<
    DiffAnalysis,
    TreeSitterError,
>)
    requires
        outcomes.len() == diff.changed_files.len(),
        outcome_nodes(outcome_views(outcomes@), outcomes.len() as int) <= usize::MAX,
    ensures
        res is Ok ==> diff_analysis_of(diff@.changed_files, outcome_views(outcomes@)) == Ok::<
            DiffAnalysisModel,
            TreeSitterError,
        >(res->Ok_0@),
        res is Err ==> diff_analysis_of(diff@.changed_files, outcome_views(outcomes@)) == Err::<
            DiffAnalysisModel,
            TreeSitterError,
        >(res->Err_0),
{
    match examine_files(&diff.changed_files, outcomes) {
        Ok((analyses, languages)) => Ok(summarize_analyses(analyses, &languages)),
        Err(e) => Err(e),
    }
}

// ---------------------------------------------------------------------------
// The summary of a set of file analyses
// ---------------------------------------------------------------------------

/// The languages of a sequence of file analyses, in order.
pub open spec fn analysis_languages(fas: Seq<FileAnalysisModel>) -> Seq<Seq<char>> {
    fas.map_values(|a: FileAnalysisModel| a.language)
}

/// Each language with the number of its files, as the short summary lists
/// it.
pub open spec fn short_language_parts(t: Seq<(Seq<char>, nat)>) -> Seq<Seq<char>> {
    t.map_values(|e: (Seq<char>, nat)| e.0 + " ("@ + decimal(e.1) + ")"@)
}

/// The line naming the functions and classes among the nodes, when there
/// are any.
pub open spec fn including_line(functions: nat, classes: nat) -> Seq<char> {
    if functions > 0 || classes > 0 {
        "Including: "@ + (if functions > 0 {
            decimal(functions) + " functions/methods"@
        } else {
            seq![]
        }) + (if classes > 0 {
            (if functions > 0 {
                ", "@
            } else {
                seq![]
            }) + decimal(classes) + " classes/structs"@
        } else {
            seq![]
        }) + "\n"@
    } else {
        seq![]
    }
}

/// The short summary of a set of file analyses: the number of files, each
/// language with its number of files in order of first appearance, the
/// number of affected nodes, and how many of them are functions or methods
/// and classes or structs.
pub open spec fn overall_summary_of(fas: Seq<FileAnalysisModel>) -> Seq<char> {
    if fas.len() == 0 {
        "No files analyzed"@
    } else {
        let ns = all_nodes(fas);
        "Analyzed "@ + decimal(fas.len()) + " files\n"@ + "Languages: "@ + join_seqs(
            short_language_parts(tally(analysis_languages(fas))),
            ", "@,
        ) + "\n"@ + "Found "@ + decimal(ns.len()) + " affected nodes\n"@ + including_line(
            class_count(ns, NodeClass::NamesFunction),
            class_count(ns, NodeClass::NamesClass),
        )
    }
}

/// The short summary of a set of file analyses (see `overall_summary_of`).
pub fn generate_overall_summary(file_analyses: &Vec<FileAnalysis>) -> (res: String)
    requires
        all_nodes(analysis_views(file_analyses@)).len() <= usize::MAX,
    ensures
        res@ == overall_summary_of(analysis_views(file_analyses@)),
{
    let ghost av = analysis_views(file_analyses@);
    if file_analyses.len() == 0 {
        return text("No files analyzed");
    }
    let mut languages: Vec<String> = Vec::new();
    let mut i: usize = 0;
    while i < file_analyses.len()
        invariant
            av == analysis_views(file_analyses@),
            i <= file_analyses.len(),
            string_views(languages@) == analysis_languages(av).take(i as int),
        decreases file_analyses.len() - i,
    {
        let ghost before = string_views(languages@);
        let l = file_analyses[i].language.clone();
        assert(av[i as int].language == l@);
        languages.push(l);
        assert(string_views(languages@) =~= before.push(l@));
        assert(string_views(languages@) =~= analysis_languages(av).take(i + 1));
        i = i + 1;
    }
    assert(analysis_languages(av).take(i as int) =~= analysis_languages(av));
    let t = tally_strings(&languages);
    let ghost tv = string_tally_view(t@);
    let mut parts: Vec<Vec<char>> = Vec::new();
    let mut j: usize = 0;
    while j < t.len()
        invariant
            tv == string_tally_view(t@),
            j <= t.len(),
            views(parts@) == short_language_parts(tv).take(j as int),
        decreases t.len() - j,
    {
        let ghost before = views(parts@);
        let mut p = chars_of(t[j].0.as_str());
        extend_str(&mut p, " (");
        push_decimal(&mut p, t[j].1);
        extend_str(&mut p, ")");
        let ghost pv = p@;
        parts.push(p);
        proof {
            assert(views(parts@) =~= before.push(pv));
            assert(tv[j as int] == (t@[j as int].0@, t@[j as int].1 as nat));
            assert(short_language_parts(tv)[j as int] == pv);
            assert(views(parts@) =~= short_language_parts(tv).take(j + 1));
        }
        j = j + 1;
    }
    assert(short_language_parts(tv).take(j as int) =~= short_language_parts(tv));
    let total = total_nodes(file_analyses);
    let functions = class_total(file_analyses, NodeClass::NamesFunction);
    let classes = class_total(file_analyses, NodeClass::NamesClass);
    let mut v: Vec<char> = Vec::new();
    extend_str(&mut v, "Analyzed ");
    push_decimal(&mut v, file_analyses.len());
    extend_str(&mut v, " files\n");
    extend_str(&mut v, "Languages: ");
    let joined = join_parts(&parts, ", ");
    extend_chars(&mut v, joined.as_slice());
    extend_str(&mut v, "\n");
    extend_str(&mut v, "Found ");
    push_decimal(&mut v, total);
    extend_str(&mut v, " affected nodes\n");
    let ghost head = v@;
    if functions > 0 || classes > 0 {
        extend_str(&mut v, "Including: ");
        let ghost a = v@;
        if functions > 0 {
            push_decimal(&mut v, functions);
            extend_str(&mut v, " functions/methods");
        }
        let ghost b = v@;
        if classes > 0 {
            if functions > 0 {
                extend_str(&mut v, ", ");
            }
            push_decimal(&mut v, classes);
            extend_str(&mut v, " classes/structs");
        }
        extend_str(&mut v, "\n");
    }
    assert(v@ =~= head + including_line(functions as nat, classes as nat));
    to_string(&v)
}

} // verus!
