//! The decisions and texts of the `review` command: which diff to take,
//! how deep to analyse, the structural analysis report, the prompt for the
//! AI, and the forms in which the result is written.
//!
//! Running Git, asking the AI and writing files are the caller's part.

use vstd::prelude::*;
use vstd::string::StringExecFns;
use crate::cli_interface::args::ReviewArgs;
use crate::review_engine::AnalysisDepth;
use crate::errors::AppError;
use crate::text::{
    chars_of, contains_seq, contains_str, decimal, extend_chars, extend_str, extend_string,
    is_blank, is_prefix_of, lines_of, lowercase_of, push_decimal, split_lines, starts_with,
    starts_with_char, string_eq_str, string_views, to_lowercase, to_string, trim_chars, trim_seq, views,
    opt_string_view, path_extension, path_extension_of,
};
use crate::tree_sitter_analyzer::analyzer::change_kind;
use crate::tree_sitter_analyzer::analyzer::change_kind_of;
use crate::tree_sitter_analyzer::model::{
    analysis_views, node_views, AffectedNode, AffectedNodeModel, ChangePattern,
    ChangePatternModel, ChangeScope, ChangedFileModel, DiffAnalysis, DiffAnalysisModel,
    FileAnalysis, FileAnalysisModel, GitDiff, GitDiffModel,
};

verus! {

// ---------------------------------------------------------------------------
// Depth and analyser choice
// ---------------------------------------------------------------------------

/// The analysis depth named by a depth setting, compared without regard to
/// case: `shallow` and `basic` are basic, `deep` is deep, anything else
/// normal.
pub open spec fn analysis_depth_of(depth: Seq<char>) -> AnalysisDepth {
    let l = lowercase_of(depth);
    if l == "shallow"@ || l == "basic"@ {
        AnalysisDepth::Basic
    } else if l == "deep"@ {
        AnalysisDepth::Deep
    } else {
        AnalysisDepth::Normal
    }
}

/// The analysis depth the arguments ask for (see `analysis_depth_of`).
pub fn get_analysis_depth(args: &ReviewArgs) -> (res: AnalysisDepth)
    ensures
        res == analysis_depth_of(args.depth@),
{
    let l = to_lowercase(args.depth.as_str());
    if string_eq_str(&l, "shallow") || string_eq_str(&l, "basic") {
        AnalysisDepth::Basic
    } else if string_eq_str(&l, "deep") {
        AnalysisDepth::Deep
    } else {
        AnalysisDepth::Normal
    }
}

/// Whether the structural analysis is used: when asked for by either flag,
/// or when not switched off.
pub fn should_use_tree_sitter(args: &ReviewArgs) -> (res: bool)
    ensures
        res == (args.tree_sitter || args.review_ts || !args.no_tree_sitter),
{
    args.tree_sitter || args.review_ts || !args.no_tree_sitter
}

/// The analyser's depth setting for an analysis depth.
pub open spec fn depth_setting_of(depth: AnalysisDepth) -> Seq<char> {
    match depth {
        AnalysisDepth::Basic => "shallow"@,
        AnalysisDepth::Normal => "medium"@,
        AnalysisDepth::Deep => "deep"@,
    }
}

/// The analyser's depth setting for an analysis depth.
pub fn depth_setting(depth: AnalysisDepth) -> (res: String)
    ensures
        res@ == depth_setting_of(depth),
{
    match depth {
        AnalysisDepth::Basic => String::from_str("shallow"),
        AnalysisDepth::Normal => String::from_str("medium"),
        AnalysisDepth::Deep => String::from_str("deep"),
    }
}

// ---------------------------------------------------------------------------
// The structural analysis report
// ---------------------------------------------------------------------------

/// One bullet per changed file, naming its path in bold.
pub open spec fn path_bullets(fs: Seq<ChangedFileModel>) -> Seq<char>
    decreases fs.len(),
{
    if fs.len() == 0 {
        seq![]
    } else {
        path_bullets(fs.drop_last()) + "- **"@ + fs.last().path + "**\n"@
    }
}

/// The section listing the changed files.
pub open spec fn changed_files_section(fs: Seq<ChangedFileModel>) -> Seq<char> {
    "### 变更文件摘要\n\n"@ + (if fs.len() == 0 {
        "- 未检测到代码变更\n"@
    } else {
        path_bullets(fs)
    }) + "\n"@
}

/// The mark of a node's kind of change.
pub open spec fn change_mark(n: AffectedNodeModel) -> Seq<char> {
    let k = change_kind_of(n);
    if k == 0 {
        "➕ "@
    } else if k == 1 {
        "❌ "@
    } else if k == 2 {
        "🔄 "@
    } else {
        seq![]
    }
}

/// The group of a file analysis in the report: 0 Java, 1 Rust, 2 other.
pub open spec fn language_group(a: FileAnalysisModel) -> u8 {
    if a.language == "java"@ {
        0
    } else if a.language == "rust"@ {
        1
    } else {
        2
    }
}

/// How a node's type is shown in a group.
pub open spec fn type_display(group: u8, t: Seq<char>) -> Seq<char> {
    if group == 0 {
        if t == "spring_component"@ {
            "Spring组件"@
        } else if t == "api_endpoint"@ {
            "API端点"@
        } else if t == "jpa_entity"@ {
            "JPA实体"@
        } else if t == "class_structure"@ {
            "类"@
        } else if t == "overridden_method"@ {
            "重写方法"@
        } else {
            t
        }
    } else if group == 1 {
        if t == "debuggable_struct"@ {
            "可调试结构体"@
        } else if t == "test_function"@ {
            "测试函数"@
        } else if t == "macro"@ {
            "宏"@
        } else {
            t
        }
    } else {
        t
    }
}

/// The visibility of a node, in words.
pub open spec fn visibility_word(n: AffectedNodeModel) -> Seq<char> {
    if n.is_public {
        "公开"@
    } else {
        "私有"@
    }
}

/// The line of the report for one affected node.
pub open spec fn node_line(group: u8, n: AffectedNodeModel) -> Seq<char> {
    if group == 2 {
        "    - "@ + n.node_type + " `"@ + n.name + "` ("@ + visibility_word(n) + ")\n"@
    } else {
        "    - "@ + change_mark(n) + "**"@ + type_display(group, n.node_type) + "** `"@ + n.name
            + "` ("@ + visibility_word(n) + ")\n"@
    }
}

/// The lines of the report for a sequence of affected nodes.
pub open spec fn node_lines(group: u8, ns: Seq<AffectedNodeModel>) -> Seq<char>
    decreases ns.len(),
{
    if ns.len() == 0 {
        seq![]
    } else {
        node_lines(group, ns.drop_last()) + node_line(group, ns.last())
    }
}

/// The block of the report for one file analysis.
pub open spec fn file_block(group: u8, a: FileAnalysisModel) -> Seq<char> {
    "- **"@ + a.path + "**\n"@ + match a.summary {
        Some(s) => "  - "@ + s + "\n"@,
        None => seq![],
    } + if a.affected_nodes.len() > 0 {
        "  - 受影响的代码结构:\n"@ + node_lines(group, a.affected_nodes)
    } else {
        seq![]
    }
}

/// The blocks of the file analyses of a group, in order.
pub open spec fn group_blocks(group: u8, fas: Seq<FileAnalysisModel>) -> Seq<char>
    decreases fas.len(),
{
    if fas.len() == 0 {
        seq![]
    } else {
        group_blocks(group, fas.drop_last()) + if language_group(fas.last()) == group {
            file_block(group, fas.last())
        } else {
            seq![]
        }
    }
}

/// Some file analysis belongs to the group.
pub open spec fn group_present(group: u8, fas: Seq<FileAnalysisModel>) -> bool {
    exists|i: int| 0 <= i < fas.len() && language_group(#[trigger] fas[i]) == group
}

/// The heading of a group's section.
pub open spec fn group_heading(group: u8) -> Seq<char> {
    if group == 0 {
        "#### Java 文件变更\n\n"@
    } else if group == 1 {
        "#### Rust 文件变更\n\n"@
    } else {
        "#### 其他文件变更\n\n"@
    }
}

/// The section of a group, when the group has files.
pub open spec fn group_section(group: u8, fas: Seq<FileAnalysisModel>) -> Seq<char> {
    if group_present(group, fas) {
        group_heading(group) + group_blocks(group, fas) + "\n"@
    } else {
        seq![]
    }
}

/// The advice for a change pattern.
pub open spec fn pattern_advice(p: ChangePatternModel) -> Seq<char> {
    match p {
        ChangePatternModel::FeatureImplementation => "- 🆕 **新功能实现**\n  - 建议关注功能完整性和边界情况处理\n  - 确认是否有足够的测试覆盖新功能\n  - 评估与现有系统的集成是否顺畅\n"@,
        ChangePatternModel::BugFix => "- 🐛 **Bug修复**\n  - 确认修复是否解决了根本问题\n  - 检查是否有回归测试防止问题再次出现\n  - 评估是否可能引入新的问题\n"@,
        ChangePatternModel::Refactoring => "- ♻️ **代码重构**\n  - 关注功能等价性，确保重构不改变行为\n  - 检查性能影响，尤其是循环和算法改变\n  - 评估可维护性和可读性的提升\n"@,
        ChangePatternModel::ModelChange => "- 🏗️ **模型变更**\n  - 关注数据结构变化对系统的影响\n  - 检查是否需要数据迁移或兼容处理\n  - 评估模型变更的文档是否更新\n"@,
        ChangePatternModel::BehaviorChange => "- 🔄 **行为变更**\n  - 关注API合约是否发生变化\n  - 检查依赖方是否需要适配\n  - 评估行为变更是否有充分的测试验证\n"@,
        ChangePatternModel::ConfigurationChange => "- ⚙️ **配置变更**\n  - 关注配置变更对不同环境的影响\n  - 检查默认值和边界值处理\n  - 评估文档是否同步更新\n"@,
        ChangePatternModel::LanguageSpecificChange(s) => if is_prefix_of("Java"@, s) {
            "- ☕ **Java特定变更**\n"@ + if contains_seq(s, "Structural"@) {
                "  - 关注类结构变化和继承关系\n"@
            } else if contains_seq(s, "Visibility"@) {
                "  - 关注访问权限变更对客户端代码的影响\n"@
            } else {
                "  - 关注Java特定语言特性使用是否合理\n"@
            }
        } else if is_prefix_of("Rust"@, s) {
            "- 🦀 **Rust特定变更**\n"@ + if contains_seq(s, "Trait"@) {
                "  - 关注trait实现和泛型约束\n"@
            } else if contains_seq(s, "Macro"@) {
                "  - 关注宏定义的正确性和安全性\n"@
            } else {
                "  - 关注所有权和生命周期管理\n"@
            }
        } else {
            "- 🔧 **特定语言变更**\n  - 关注语言特定惯用法和最佳实践\n"@
        },
        ChangePatternModel::MixedChange => "- ℹ️ **代码评审**\n  - 使用 AI 进行深度评审，提供详细反馈\n"@,
    }
}

/// The advice for a change scope.
pub open spec fn scope_advice(s: ChangeScope) -> Seq<char> {
    match s {
        ChangeScope::Minor => "\n- 🔍 **轻微变更**\n  - 可以进行快速评审\n  - 重点关注变更的准确性\n"@,
        ChangeScope::Moderate => "\n- 🔎 **中等变更**\n  - 建议进行完整评审\n  - 关注变更的完整性和一致性\n"@,
        ChangeScope::Major => "\n- 🔬 **重大变更**\n  - 建议安排多人详细评审\n  - 考虑分阶段合并或更多测试\n  - 特别关注向后兼容性和稳定性\n"@,
    }
}

/// The counts section of the report.
pub open spec fn counts_section(ca: crate::tree_sitter_analyzer::model::ChangeAnalysisModel) -> Seq<char> {
    "#### 变更统计\n\n"@ + "- 函数/方法变更: **"@ + decimal(ca.function_changes + ca.method_changes)
        + "**\n"@ + "- 类型/结构变更: **"@ + decimal(ca.type_changes) + "**\n"@ + "- 接口/特征变更: **"@
        + decimal(ca.interface_changes) + "**\n"@ + "- 其他结构变更: **"@ + decimal(ca.other_changes)
        + "**\n\n"@
}

/// The structural analysis report of a diff and its analysis: the changed
/// files, the overall summary and counts, the affected structures of the
/// Java, Rust and other files, and advice by change pattern and scope.
pub open spec fn structure_report(d: GitDiffModel, a: DiffAnalysisModel) -> Seq<char> {
    "## 代码变更分析\n\n"@ + changed_files_section(d.changed_files) + "### 代码结构分析\n\n"@
        + "- "@ + a.overall_summary + "\n\n"@ + counts_section(a.change_analysis) + group_section(
        0,
        a.file_analyses,
    ) + group_section(1, a.file_analyses) + group_section(2, a.file_analyses)
        + "### 评审重点及建议\n\n"@ + pattern_advice(a.change_analysis.change_pattern)
        + scope_advice(a.change_analysis.change_scope)
}

fn push_path_bullets(v: &mut Vec<char>, d: &GitDiff)
    ensures
        final(v)@ == old(v)@ + path_bullets(d@.changed_files),
{
    let ghost v0 = v@;
    let ghost fs = d@.changed_files;
    let mut i: usize = 0;
    while i < d.changed_files.len()
        invariant
            fs == d@.changed_files,
            i <= fs.len(),
            v@ == v0 + path_bullets(fs.take(i as int)),
        decreases d.changed_files.len() - i,
    {
        proof {
            assert(fs.take(i + 1).drop_last() =~= fs.take(i as int));
            assert(fs.take(i + 1).last() == d.changed_files@[i as int]@);
        }
        let ghost before = v@;
        extend_str(v, "- **");
        extend_string(v, &d.changed_files[i].path);
        extend_str(v, "**\n");
        assert(v@ =~= before + "- **"@ + d.changed_files@[i as int].path@ + "**\n"@);
        i = i + 1;
    }
    assert(fs.take(i as int) =~= fs);
}

fn push_change_mark(v: &mut Vec<char>, n: &AffectedNode)
    ensures
        final(v)@ == old(v)@ + change_mark(n@),
{
    let k = change_kind(n);
    if k == 0 {
        extend_str(v, "➕ ");
    } else if k == 1 {
        extend_str(v, "❌ ");
    } else if k == 2 {
        extend_str(v, "🔄 ");
    } else {
        assert(v@ =~= old(v)@ + change_mark(n@));
    }
}

fn push_type_display(v: &mut Vec<char>, group: u8, t: &String)
    ensures
        final(v)@ == old(v)@ + type_display(group, t@),
{
    if group == 0 {
        if string_eq_str(t, "spring_component") {
            extend_str(v, "Spring组件");
        } else if string_eq_str(t, "api_endpoint") {
            extend_str(v, "API端点");
        } else if string_eq_str(t, "jpa_entity") {
            extend_str(v, "JPA实体");
        } else if string_eq_str(t, "class_structure") {
            extend_str(v, "类");
        } else if string_eq_str(t, "overridden_method") {
            extend_str(v, "重写方法");
        } else {
            extend_string(v, t);
        }
    } else if group == 1 {
        if string_eq_str(t, "debuggable_struct") {
            extend_str(v, "可调试结构体");
        } else if string_eq_str(t, "test_function") {
            extend_str(v, "测试函数");
        } else if string_eq_str(t, "macro") {
            extend_str(v, "宏");
        } else {
            extend_string(v, t);
        }
    } else {
        extend_string(v, t);
    }
}

fn push_node_line(v: &mut Vec<char>, group: u8, n: &AffectedNode)
    ensures
        final(v)@ == old(v)@ + node_line(group, n@),
{
    let ghost v0 = v@;
    extend_str(v, "    - ");
    if group == 2 {
        extend_string(v, &n.node_type);
        extend_str(v, " `");
    } else {
        push_change_mark(v, n);
        extend_str(v, "**");
        push_type_display(v, group, &n.node_type);
        extend_str(v, "** `");
    }
    extend_string(v, &n.name);
    extend_str(v, "` (");
    if n.is_public {
        extend_str(v, "公开");
    } else {
        extend_str(v, "私有");
    }
    extend_str(v, ")\n");
    assert(v@ =~= v0 + node_line(group, n@));
}

fn push_file_block(v: &mut Vec<char>, group: u8, a: &FileAnalysis)
    ensures
        final(v)@ == old(v)@ + file_block(group, a@),
{
    let ghost v0 = v@;
    extend_str(v, "- **");
    extend_string(v, &a.path);
    extend_str(v, "**\n");
    let ghost v1 = v@;
    match &a.summary {
        Some(s) => {
            extend_str(v, "  - ");
            extend_string(v, s);
            extend_str(v, "\n");
        },
        None => {},
    }
    let ghost v2 = v@;
    if a.affected_nodes.len() > 0 {
        extend_str(v, "  - 受影响的代码结构:\n");
        let ghost ns = node_views(a.affected_nodes@);
        let ghost v3 = v@;
        let mut i: usize = 0;
        while i < a.affected_nodes.len()
            invariant
                ns == node_views(a.affected_nodes@),
                i <= ns.len(),
                v@ == v3 + node_lines(group, ns.take(i as int)),
            decreases a.affected_nodes.len() - i,
        {
            proof {
                assert(ns.take(i + 1).drop_last() =~= ns.take(i as int));
                assert(ns.take(i + 1).last() == a.affected_nodes@[i as int]@);
            }
            push_node_line(v, group, &a.affected_nodes[i]);
            i = i + 1;
        }
        assert(ns.take(i as int) =~= ns);
    }
    assert(v@ =~= v0 + file_block(group, a@));
}

fn push_group_section(v: &mut Vec<char>, group: u8, fas: &Vec<FileAnalysis>)
    ensures
        final(v)@ == old(v)@ + group_section(group, analysis_views(fas@)),
{
    let ghost av = analysis_views(fas@);
    let mut present = false;
    let mut i: usize = 0;
    while i < fas.len()
        invariant
            av == analysis_views(fas@),
            i <= av.len(),
            present == exists|k: int| 0 <= k < i && language_group(#[trigger] av[k]) == group,
        decreases fas.len() - i,
    {
        let l = &fas[i].language;
        let g: u8 = if string_eq_str(l, "java") {
            0
        } else if string_eq_str(l, "rust") {
            1
        } else {
            2
        };
        assert(av[i as int].language == l@);
        if g == group {
            assert(language_group(av[i as int]) == group);
            present = true;
        }
        i = i + 1;
    }
    if !present {
        assert(v@ =~= old(v)@ + group_section(group, av));
        return;
    }
    let ghost v0 = v@;
    if group == 0 {
        extend_str(v, "#### Java 文件变更\n\n");
    } else if group == 1 {
        extend_str(v, "#### Rust 文件变更\n\n");
    } else {
        extend_str(v, "#### 其他文件变更\n\n");
    }
    let ghost v1 = v@;
    let mut j: usize = 0;
    while j < fas.len()
        invariant
            av == analysis_views(fas@),
            j <= av.len(),
            v@ == v1 + group_blocks(group, av.take(j as int)),
        decreases fas.len() - j,
    {
        proof {
            assert(av.take(j + 1).drop_last() =~= av.take(j as int));
            assert(av.take(j + 1).last() == fas@[j as int]@);
        }
        let l = &fas[j].language;
        let g: u8 = if string_eq_str(l, "java") {
            0
        } else if string_eq_str(l, "rust") {
            1
        } else {
            2
        };
        assert(av[j as int].language == l@);
        if g == group {
            push_file_block(v, group, &fas[j]);
        } else {
            assert(v@ =~= v1 + group_blocks(group, av.take(j + 1)));
        }
        j = j + 1;
    }
    assert(av.take(j as int) =~= av);
    extend_str(v, "\n");
    assert(v@ =~= old(v)@ + group_section(group, av));
}

fn push_pattern_advice(v: &mut Vec<char>, p: &ChangePattern)
    ensures
        final(v)@ == old(v)@ + pattern_advice(p@),
{
    match p {
        ChangePattern::FeatureImplementation => extend_str(
            v,
            "- 🆕 **新功能实现**\n  - 建议关注功能完整性和边界情况处理\n  - 确认是否有足够的测试覆盖新功能\n  - 评估与现有系统的集成是否顺畅\n",
        ),
        ChangePattern::BugFix => extend_str(
            v,
            "- 🐛 **Bug修复**\n  - 确认修复是否解决了根本问题\n  - 检查是否有回归测试防止问题再次出现\n  - 评估是否可能引入新的问题\n",
        ),
        ChangePattern::Refactoring => extend_str(
            v,
            "- ♻️ **代码重构**\n  - 关注功能等价性，确保重构不改变行为\n  - 检查性能影响，尤其是循环和算法改变\n  - 评估可维护性和可读性的提升\n",
        ),
        ChangePattern::ModelChange => extend_str(
            v,
            "- 🏗️ **模型变更**\n  - 关注数据结构变化对系统的影响\n  - 检查是否需要数据迁移或兼容处理\n  - 评估模型变更的文档是否更新\n",
        ),
        ChangePattern::BehaviorChange => extend_str(
            v,
            "- 🔄 **行为变更**\n  - 关注API合约是否发生变化\n  - 检查依赖方是否需要适配\n  - 评估行为变更是否有充分的测试验证\n",
        ),
        ChangePattern::ConfigurationChange => extend_str(
            v,
            "- ⚙️ **配置变更**\n  - 关注配置变更对不同环境的影响\n  - 检查默认值和边界值处理\n  - 评估文档是否同步更新\n",
        ),
        ChangePattern::LanguageSpecificChange(s) => {
            let c = chars_of(s.as_str());
            if starts_with(c.as_slice(), "Java") {
                extend_str(v, "- ☕ **Java特定变更**\n");
                if contains_str(c.as_slice(), "Structural") {
                    extend_str(v, "  - 关注类结构变化和继承关系\n");
                } else if contains_str(c.as_slice(), "Visibility") {
                    extend_str(v, "  - 关注访问权限变更对客户端代码的影响\n");
                } else {
                    extend_str(v, "  - 关注Java特定语言特性使用是否合理\n");
                }
            } else if starts_with(c.as_slice(), "Rust") {
                extend_str(v, "- 🦀 **Rust特定变更**\n");
                if contains_str(c.as_slice(), "Trait") {
                    extend_str(v, "  - 关注trait实现和泛型约束\n");
                } else if contains_str(c.as_slice(), "Macro") {
                    extend_str(v, "  - 关注宏定义的正确性和安全性\n");
                } else {
                    extend_str(v, "  - 关注所有权和生命周期管理\n");
                }
            } else {
                extend_str(v, "- 🔧 **特定语言变更**\n  - 关注语言特定惯用法和最佳实践\n");
            }
            assert(v@ =~= old(v)@ + pattern_advice(p@));
        },
        ChangePattern::MixedChange => extend_str(
            v,
            "- ℹ️ **代码评审**\n  - 使用 AI 进行深度评审，提供详细反馈\n",
        ),
    }
}

fn push_scope_advice(v: &mut Vec<char>, s: ChangeScope)
    ensures
        final(v)@ == old(v)@ + scope_advice(s),
{
    match s {
        ChangeScope::Minor => extend_str(
            v,
            "\n- 🔍 **轻微变更**\n  - 可以进行快速评审\n  - 重点关注变更的准确性\n",
        ),
        ChangeScope::Moderate => extend_str(
            v,
            "\n- 🔎 **中等变更**\n  - 建议进行完整评审\n  - 关注变更的完整性和一致性\n",
        ),
        ChangeScope::Major => extend_str(
            v,
            "\n- 🔬 **重大变更**\n  - 建议安排多人详细评审\n  - 考虑分阶段合并或更多测试\n  - 特别关注向后兼容性和稳定性\n",
        ),
    }
}

fn push_changed_files_section(v: &mut Vec<char>, git_diff: &GitDiff)
    ensures
        final(v)@ == old(v)@ + changed_files_section(git_diff@.changed_files),
{
    let ghost v0 = v@;
    extend_str(v, "### 变更文件摘要\n\n");
    if git_diff.changed_files.len() == 0 {
        extend_str(v, "- 未检测到代码变更\n");
    } else {
        push_path_bullets(v, git_diff);
    }
    extend_str(v, "\n");
    assert(v@ =~= v0 + changed_files_section(git_diff@.changed_files));
}

fn push_counts_section(v: &mut Vec<char>, ca: &crate::tree_sitter_analyzer::model::ChangeAnalysis)
    requires
        ca.function_changes + ca.method_changes <= usize::MAX,
    ensures
        final(v)@ == old(v)@ + counts_section(ca@),
{
    let ghost v0 = v@;
    extend_str(v, "#### 变更统计\n\n");
    extend_str(v, "- 函数/方法变更: **");
    push_decimal(v, ca.function_changes + ca.method_changes);
    extend_str(v, "**\n");
    extend_str(v, "- 类型/结构变更: **");
    push_decimal(v, ca.type_changes);
    extend_str(v, "**\n");
    extend_str(v, "- 接口/特征变更: **");
    push_decimal(v, ca.interface_changes);
    extend_str(v, "**\n");
    extend_str(v, "- 其他结构变更: **");
    push_decimal(v, ca.other_changes);
    extend_str(v, "**\n\n");
    assert(v@ =~= v0 + counts_section(ca@));
}

/// The structural analysis report of a diff and its analysis (see
/// `structure_report`).
pub fn structure_review_report(git_diff: &GitDiff, analysis: &DiffAnalysis) -> (res: String)
    requires
        analysis.change_analysis.function_changes + analysis.change_analysis.method_changes
            <= usize::MAX,
    ensures
        res@ == structure_report(git_diff@, analysis@),
{
    let ca = &analysis.change_analysis;
    let mut v: Vec<char> = Vec::new();
    extend_str(&mut v, "## 代码变更分析\n\n");
    push_changed_files_section(&mut v, git_diff);
    extend_str(&mut v, "### 代码结构分析\n\n");
    extend_str(&mut v, "- ");
    extend_string(&mut v, &analysis.overall_summary);
    extend_str(&mut v, "\n\n");
    push_counts_section(&mut v, ca);
    push_group_section(&mut v, 0, &analysis.file_analyses);
    push_group_section(&mut v, 1, &analysis.file_analyses);
    push_group_section(&mut v, 2, &analysis.file_analyses);
    extend_str(&mut v, "### 评审重点及建议\n\n");
    push_pattern_advice(&mut v, &ca.change_pattern);
    push_scope_advice(&mut v, ca.change_scope);
    assert(v@ =~= structure_report(git_diff@, analysis@));
    to_string(&v)
}

// ---------------------------------------------------------------------------
// Which diff to review
// ---------------------------------------------------------------------------

/// Where the diff to review comes from.
pub enum DiffSource {
    /// Run `git` with these arguments; its output is the diff.
    Run(Vec<String>),
    /// Ask `git status --porcelain` first (see `status_diff_args`).
    FromStatus,
    /// The arguments cannot be served.
    Invalid(AppError),
}

/// Where the diff to review comes from: two commits are compared with each
/// other, one commit with `HEAD`; without commits the status decides; a
/// second commit without a first is refused.
pub fn review_diff_source(args: &ReviewArgs) -> (res: DiffSource)
    ensures
        match (args.commit1, args.commit2) {
            (Some(c1), Some(c2)) => (res matches DiffSource::Run(a) && string_views(a@) == seq![
                "diff"@,
                c1@ + ".."@ + c2@,
                "--"@,
            ]),
            (Some(c), None) => (res matches DiffSource::Run(a) && string_views(a@) == seq![
                "diff"@,
                c@ + "..HEAD"@,
                "--"@,
            ]),
            (None, None) => res is FromStatus,
            (None, Some(_)) => (res matches DiffSource::Invalid(AppError::Generic(m)) && m@
                == "如果指定了第二个提交，则必须同时指定第一个提交。"@),
        },
{
    match (&args.commit1, &args.commit2) {
        (Some(c1), Some(c2)) => {
            let mut r: Vec<char> = Vec::new();
            extend_string(&mut r, c1);
            extend_str(&mut r, "..");
            extend_string(&mut r, c2);
            let a = vec![String::from_str("diff"), to_string(&r), String::from_str("--")];
            assert(string_views(a@) =~= seq!["diff"@, c1@ + ".."@ + c2@, "--"@]);
            DiffSource::Run(a)
        },
        (Some(c), None) => {
            let mut r: Vec<char> = Vec::new();
            extend_string(&mut r, c);
            extend_str(&mut r, "..HEAD");
            let a = vec![String::from_str("diff"), to_string(&r), String::from_str("--")];
            assert(string_views(a@) =~= seq!["diff"@, c@ + "..HEAD"@, "--"@]);
            DiffSource::Run(a)
        },
        (None, None) => DiffSource::FromStatus,
        (None, Some(_)) => DiffSource::Invalid(
            AppError::Generic(String::from_str("如果指定了第二个提交，则必须同时指定第一个提交。")),
        ),
    }
}

/// A status line of a staged change: it starts with `M`, `A`, `D` or `R`.
pub open spec fn is_staged_status_line(l: Seq<char>) -> bool {
    l.len() > 0 && (l[0] == 'M' || l[0] == 'A' || l[0] == 'D' || l[0] == 'R')
}

/// Some line of the status reports a staged change.
pub open spec fn has_staged_change(status: Seq<char>) -> bool {
    exists|i: int|
        0 <= i < lines_of(status).len() && is_staged_status_line(#[trigger] lines_of(status)[i])
}

/// The diff arguments for a status with changes: the staged diff when some
/// change is staged, otherwise the working tree's diff.
pub open spec fn status_args(status: Seq<char>) -> Seq<Seq<char>> {
    if has_staged_change(status) {
        seq!["diff"@, "--staged"@]
    } else {
        seq!["diff"@]
    }
}

/// Law: a status line whose index column holds `M`, `A`, `D` or `R` (a
/// staged modification, addition, deletion or rename) selects the staged
/// diff; when no line starts with one of them, the working tree's diff is
/// reviewed.
pub proof fn law_staged_changes_select_the_staged_diff(status: Seq<char>)
    ensures
        forall|i: int|
            0 <= i < lines_of(status).len() && (#[trigger] lines_of(status)[i]).len() > 0 && (lines_of(
                status,
            )[i][0] == 'M' || lines_of(status)[i][0] == 'A' || lines_of(status)[i][0] == 'D' || lines_of(
                status,
            )[i][0] == 'R') ==> status_args(status) == seq!["diff"@, "--staged"@],
        (forall|i: int|
            0 <= i < lines_of(status).len() ==> (#[trigger] lines_of(status)[i]).len() == 0 || (lines_of(
                status,
            )[i][0] != 'M' && lines_of(status)[i][0] != 'A' && lines_of(status)[i][0] != 'D' && lines_of(
                status,
            )[i][0] != 'R')) ==> status_args(status) == seq!["diff"@],
{
    assert forall|i: int|
        0 <= i < lines_of(status).len() && (#[trigger] lines_of(status)[i]).len() > 0 && (lines_of(
            status,
        )[i][0] == 'M' || lines_of(status)[i][0] == 'A' || lines_of(status)[i][0] == 'D' || lines_of(
            status,
        )[i][0] == 'R') implies status_args(status) == seq!["diff"@, "--staged"@] by {
        assert(is_staged_status_line(lines_of(status)[i]));
    }
}

/// The diff arguments chosen from `git status --porcelain` output: no
/// changes is an error; a staged change selects the staged diff, otherwise
/// the working tree's diff.
pub fn status_diff_args(status_stdout: &str) -> (res: Result<Vec<String>, AppError>)
    ensures
        trim_seq(status_stdout@).len() == 0 ==> (res matches Err(AppError::Generic(m)) && m@
            == "没有检测到变更，无法执行代码评审。请先暂存(git add)或提交一些变更。"@),
        trim_seq(status_stdout@).len() > 0 ==> (res matches Ok(a) && string_views(a@)
            == status_args(status_stdout@)),
{
    let c = chars_of(status_stdout);
    if is_blank(c.as_slice()) {
        return Err(
            AppError::Generic(
                String::from_str("没有检测到变更，无法执行代码评审。请先暂存(git add)或提交一些变更。"),
            ),
        );
    }
    let lines = split_lines(c.as_slice());
    let ghost lv = views(lines@);
    let mut staged = false;
    let mut i: usize = 0;
    while i < lines.len()
        invariant
            lv == views(lines@),
            lv == lines_of(status_stdout@),
            i <= lv.len(),
            staged == exists|k: int| 0 <= k < i && is_staged_status_line(#[trigger] lv[k]),
        decreases lines.len() - i,
    {
        let l = lines[i].as_slice();
        assert(lv[i as int] == l@);
        if starts_with_char(l, 'M') || starts_with_char(l, 'A') || starts_with_char(l, 'D')
            || starts_with_char(l, 'R') {
            assert(is_staged_status_line(lv[i as int]));
            staged = true;
        }
        i = i + 1;
    }
    if staged {
        let a = vec![String::from_str("diff"), String::from_str("--staged")];
        assert(string_views(a@) =~= seq!["diff"@, "--staged"@]);
        Ok(a)
    } else {
        let a = vec![String::from_str("diff")];
        assert(string_views(a@) =~= seq!["diff"@]);
        Ok(a)
    }
}

// ---------------------------------------------------------------------------
// The prompt
// ---------------------------------------------------------------------------

/// The prompt asking the AI for a review: who is asked and in which
/// languages, the focus (the requested one, or a general list), how to
/// structure the review, the structural analysis and the diff.
pub open spec fn review_prompt(
    diff_text: Seq<char>,
    analysis: Seq<char>,
    focus: Option<Seq<char>>,
    languages: Seq<char>,
) -> Seq<char> {
    "你是一位经验丰富的代码评审专家，精通多种编程语言，特别是"@ + (if languages.len() == 0 {
        "各种编程语言"@
    } else {
        languages
    }) + "。你擅长识别代码中的潜在问题、安全隐患和性能瓶颈，并提供具体的改进建议。请根据TreeSitter提供的结构化分析，对以下代码变更进行全面评审。"@
        + "\n\n## 代码评审请求\n\n"@ + match focus {
        Some(f) => "请特别关注以下方面: "@ + f,
        None => "请全面评审代码，特别关注以下方面：\n1. 代码质量和最佳实践\n2. 可能的安全隐患或漏洞\n3. 性能优化机会\n4. 可读性和可维护性\n5. 与现有代码的集成和兼容性"@,
    } + "\n\n## 评审指南\n\n"@
        + "请提供结构化的评审，包括：\n1. 总体评价：变更的整体质量和目的\n2. 问题列表：发现的具体问题，每个问题包含：\n- 问题位置和描述\n- 问题严重程度\n- 改进建议\n3. 改进建议：如何提升代码质量\n4. 总结：最重要的1-3个需要关注的点"@
        + "\n\n## TreeSitter结构分析\n\n"@ + analysis + "\n\n## 代码变更\n\n```diff\n"@ + diff_text
        + "\n```"@
}

/// The prompt asking the AI for a review (see `review_prompt`).
pub fn generate_ai_review_prompt(
    diff_text: &str,
    analysis: &str,
    args: &ReviewArgs,
    languages: &str,
) -> (res: String)
    ensures
        res@ == review_prompt(
            diff_text@,
            analysis@,
            match args.focus {
                Some(f) => Some(f@),
                None => None,
            },
            languages@,
        ),
{
    let mut v: Vec<char> = Vec::new();
    extend_str(&mut v, "你是一位经验丰富的代码评审专家，精通多种编程语言，特别是");
    let l = chars_of(languages);
    if l.len() == 0 {
        extend_str(&mut v, "各种编程语言");
    } else {
        extend_str(&mut v, languages);
    }
    extend_str(
        &mut v,
        "。你擅长识别代码中的潜在问题、安全隐患和性能瓶颈，并提供具体的改进建议。请根据TreeSitter提供的结构化分析，对以下代码变更进行全面评审。",
    );
    extend_str(&mut v, "\n\n## 代码评审请求\n\n");
    match &args.focus {
        Some(f) => {
            extend_str(&mut v, "请特别关注以下方面: ");
            extend_string(&mut v, f);
        },
        None => {
            extend_str(
                &mut v,
                "请全面评审代码，特别关注以下方面：\n1. 代码质量和最佳实践\n2. 可能的安全隐患或漏洞\n3. 性能优化机会\n4. 可读性和可维护性\n5. 与现有代码的集成和兼容性",
            );
        },
    }
    extend_str(&mut v, "\n\n## 评审指南\n\n");
    extend_str(
        &mut v,
        "请提供结构化的评审，包括：\n1. 总体评价：变更的整体质量和目的\n2. 问题列表：发现的具体问题，每个问题包含：\n- 问题位置和描述\n- 问题严重程度\n- 改进建议\n3. 改进建议：如何提升代码质量\n4. 总结：最重要的1-3个需要关注的点",
    );
    extend_str(&mut v, "\n\n## TreeSitter结构分析\n\n");
    extend_str(&mut v, analysis);
    extend_str(&mut v, "\n\n## 代码变更\n\n```diff\n");
    extend_str(&mut v, diff_text);
    extend_str(&mut v, "\n```");
    assert(v@ =~= review_prompt(
        diff_text@,
        analysis@,
        match args.focus {
            Some(f) => Some(f@),
            None => None,
        },
        languages@,
    ));
    to_string(&v)
}

// ---------------------------------------------------------------------------
// Output forms
// ---------------------------------------------------------------------------

/// A path with a leading `~` replaced by the home directory: only `~` itself
/// and paths starting with `~/` are expanded, and only when a home directory
/// is known.
pub open spec fn expanded_path(path: Seq<char>, home: Option<Seq<char>>) -> Seq<char> {
    if is_prefix_of("~/"@, path) || path == "~"@ {
        match home {
            Some(h) => h + path.subrange(1, path.len() as int),
            None => path,
        }
    } else {
        path
    }
}

/// The language a review names for a lower-cased file extension: Rust,
/// Python, Java, `js` for JavaScript and TypeScript sources, C (with `.h`),
/// C++ and Go.
pub open spec fn review_extension_language(e: Seq<char>) -> Option<Seq<char>> {
    if e == "rs"@ {
        Some("rust"@)
    } else if e == "py"@ {
        Some("python"@)
    } else if e == "java"@ {
        Some("java"@)
    } else if e == "js"@ || e == "jsx"@ || e == "ts"@ || e == "tsx"@ {
        Some("js"@)
    } else if e == "c"@ || e == "h"@ {
        Some("c"@)
    } else if e == "cpp"@ || e == "cc"@ || e == "cxx"@ || e == "hpp"@ || e == "hxx"@ {
        Some("cpp"@)
    } else if e == "go"@ {
        Some("go"@)
    } else {
        None
    }
}

/// The language a review names for a file, by its extension compared
/// without regard to case (see `review_extension_language`).
pub fn get_language_from_file_path(path: &str) -> (res: Option<String>)
    ensures
        opt_string_view(res) == match path_extension_of(path@) {
            Some(e) => review_extension_language(lowercase_of(e)),
            None => None,
        },
{
    let extension = match path_extension(path) {
        Some(e) => e,
        None => return None,
    };
    let e = to_lowercase(extension.as_str());
    if string_eq_str(&e, "rs") {
        Some(String::from_str("rust"))
    } else if string_eq_str(&e, "py") {
        Some(String::from_str("python"))
    } else if string_eq_str(&e, "java") {
        Some(String::from_str("java"))
    } else if string_eq_str(&e, "js") || string_eq_str(&e, "jsx") || string_eq_str(&e, "ts")
        || string_eq_str(&e, "tsx") {
        Some(String::from_str("js"))
    } else if string_eq_str(&e, "c") || string_eq_str(&e, "h") {
        Some(String::from_str("c"))
    } else if string_eq_str(&e, "cpp") || string_eq_str(&e, "cc") || string_eq_str(&e, "cxx")
        || string_eq_str(&e, "hpp") || string_eq_str(&e, "hxx") {
        Some(String::from_str("cpp"))
    } else if string_eq_str(&e, "go") {
        Some(String::from_str("go"))
    } else {
        None
    }
}

/// Expands a leading `~` in a path (see `expanded_path`), given the home
/// directory if one is known.
pub fn expand_tilde(path: &str, home: Option<&String>) -> (res: String)
    ensures
        res@ == expanded_path(
            path@,
            match home {
                Some(h) => Some(h@),
                None => None,
            },
        ),
{
    let p = chars_of(path);
    if starts_with(p.as_slice(), "~/") || crate::text::chars_eq_str(p.as_slice(), "~") {
        match home {
            Some(h) => {
                proof {
                    reveal_strlit("~/");
                    reveal_strlit("~");
                }
                let mut v = chars_of(h.as_str());
                let rest = crate::text::slice_chars(p.as_slice(), 1, p.len());
                extend_chars(&mut v, rest.as_slice());
                to_string(&v)
            },
            None => String::from_str(path),
        }
    } else {
        String::from_str(path)
    }
}

/// The JSON escape of one character, as serde_json writes it: quote and
/// backslash are escaped, backspace, form feed, newline, carriage return and
/// tab get their short escapes, other characters below U+0020 a `\u00xx`
/// escape with lower-case hex digits, and everything else stays.
pub open spec fn json_escape_char(c: char) -> Seq<char> {
    if c == '"' {
        seq!['\\', '"']
    } else if c == '\\' {
        seq!['\\', '\\']
    } else if c == '\u{8}' {
        seq!['\\', 'b']
    } else if c == '\u{c}' {
        seq!['\\', 'f']
    } else if c == '\n' {
        seq!['\\', 'n']
    } else if c == '\r' {
        seq!['\\', 'r']
    } else if c == '\t' {
        seq!['\\', 't']
    } else if (c as u32) < 0x20 {
        seq!['\\', 'u', '0', '0', crate::text::digit_char((c as u32 / 16) as nat), crate::text::digit_char((c as u32 % 16) as nat)]
    } else {
        seq![c]
    }
}

/// The JSON escape of a text.
pub open spec fn json_escaped(s: Seq<char>) -> Seq<char>
    decreases s.len(),
{
    if s.len() == 0 {
        seq![]
    } else {
        json_escaped(s.drop_last()) + json_escape_char(s.last())
    }
}

/// serde_json's `to_string` of a string: the string as a JSON string
/// literal. Its contract states serde_json's escaping (see
/// `json_escape_char`) within double quotes; serialising a string does not
/// fail.
#[verifier::external_body]
fn json_string(s: &str) -> (res: String)
    ensures
        res@ == seq!['"'] + json_escaped(s@) + seq!['"'],
{
    match serde_json::to_string(s) {
        Ok(t) => t,
        Err(_) => String::new(),
    }
}

/// A text with every newline replaced by `<br>`.
pub open spec fn with_line_breaks(s: Seq<char>) -> Seq<char>
    decreases s.len(),
{
    if s.len() == 0 {
        seq![]
    } else {
        with_line_breaks(s.drop_last()) + if s.last() == '\n' {
            "<br>"@
        } else {
            seq![s.last()]
        }
    }
}

fn push_with_line_breaks(v: &mut Vec<char>, s: &str)
    ensures
        final(v)@ == old(v)@ + with_line_breaks(s@),
{
    let c = chars_of(s);
    let ghost v0 = v@;
    let mut i: usize = 0;
    while i < c.len()
        invariant
            i <= c@.len(),
            c@ == s@,
            v@ == v0 + with_line_breaks(c@.take(i as int)),
        decreases c.len() - i,
    {
        proof {
            assert(c@.take(i + 1).drop_last() =~= c@.take(i as int));
            assert(c@.take(i + 1).last() == c@[i as int]);
        }
        if c[i] == '\n' {
            extend_str(v, "<br>");
        } else {
            let ghost before = v@;
            v.push(c[i]);
            assert(v@ =~= before + seq![c@[i as int]]);
        }
        i = i + 1;
    }
    assert(c@.take(i as int) =~= c@);
}

/// The review in the requested format, compared without regard to case:
/// `json` wraps it in a JSON object (keys in alphabetical order, as
/// serde_json's map keeps them) with a fixed timestamp and format version;
/// `html` puts it in a page with newlines as `<br>`; anything else keeps the
/// text as it is.
pub open spec fn formatted_review(review: Seq<char>, format: Seq<char>) -> Seq<char> {
    let f = lowercase_of(format);
    if f == "json"@ {
        "{\"format_version\":\"1.0\",\"review\":"@ + seq!['"'] + json_escaped(review) + seq!['"']
            + ",\"timestamp\":\"2023-01-01T00:00:00Z\"}"@
    } else if f == "html"@ {
        "<!DOCTYPE html>\n<html>\n<head>\n<meta charset=\"UTF-8\">\n<title>Gitie Code Review</title>\n<style>body { font-family: Arial, sans-serif; margin: 20px; }</style>\n</head>\n<body>\n<h1>Gitie 代码评审报告</h1>\n<div>"@
            + with_line_breaks(review) + "</div>\n<p><em>由 Gitie 生成</em></p>\n</body>\n</html>"@
    } else {
        review
    }
}

/// The review in the requested format (see `formatted_review`).
pub fn format_review_output(review_text: &str, format: &str) -> (res: String)
    ensures
        res@ == formatted_review(review_text@, format@),
{
    let f = to_lowercase(format);
    if string_eq_str(&f, "json") {
        let mut v: Vec<char> = Vec::new();
        extend_str(&mut v, "{\"format_version\":\"1.0\",\"review\":");
        extend_string(&mut v, &json_string(review_text));
        extend_str(&mut v, ",\"timestamp\":\"2023-01-01T00:00:00Z\"}");
        assert(v@ =~= formatted_review(review_text@, format@));
        to_string(&v)
    } else if string_eq_str(&f, "html") {
        let mut v: Vec<char> = Vec::new();
        extend_str(
            &mut v,
            "<!DOCTYPE html>\n<html>\n<head>\n<meta charset=\"UTF-8\">\n<title>Gitie Code Review</title>\n<style>body { font-family: Arial, sans-serif; margin: 20px; }</style>\n</head>\n<body>\n<h1>Gitie 代码评审报告</h1>\n<div>",
        );
        push_with_line_breaks(&mut v, review_text);
        extend_str(&mut v, "</div>\n<p><em>由 Gitie 生成</em></p>\n</body>\n</html>");
        assert(v@ =~= formatted_review(review_text@, format@));
        to_string(&v)
    } else {
        String::from_str(review_text)
    }
}

// ---------------------------------------------------------------------------
// Texts of the review command
// ---------------------------------------------------------------------------

/// The analysis text when the structural analysis is not used.
pub open spec fn simple_review_analysis(fs: Seq<ChangedFileModel>) -> Seq<char> {
    "## 代码变更分析\n\n"@ + "### 变更文件摘要\n\n"@ + (if fs.len() == 0 {
        "- 未检测到代码变更\n"@
    } else {
        path_bullets(fs)
    }) + "\n### 初步分析结果\n\n"@ + "- ℹ️ **简化分析模式**\n"@ + "  - 未启用TreeSitter进行深度分析\n"@
}

/// The analysis text when the structural analysis is not used (see
/// `simple_review_analysis`).
pub fn simple_analysis_text(git_diff: &GitDiff) -> (res: String)
    ensures
        res@ == simple_review_analysis(git_diff@.changed_files),
{
    let mut v: Vec<char> = Vec::new();
    extend_str(&mut v, "## 代码变更分析\n\n");
    extend_str(&mut v, "### 变更文件摘要\n\n");
    if git_diff.changed_files.len() == 0 {
        extend_str(&mut v, "- 未检测到代码变更\n");
    } else {
        push_path_bullets(&mut v, git_diff);
    }
    extend_str(&mut v, "\n### 初步分析结果\n\n");
    extend_str(&mut v, "- ℹ️ **简化分析模式**\n");
    extend_str(&mut v, "  - 未启用TreeSitter进行深度分析\n");
    assert(v@ =~= simple_review_analysis(git_diff@.changed_files));
    to_string(&v)
}

/// A language worth naming in the prompt: not empty, `unknown`, `error` or
/// `text`.
pub open spec fn named_language(l: Seq<char>) -> bool {
    l.len() > 0 && l != "unknown"@ && l != "error"@ && l != "text"@
}

/// The named languages of the file analyses, in order.
pub open spec fn named_languages(fas: Seq<FileAnalysisModel>) -> Seq<Seq<char>>
    decreases fas.len(),
{
    if fas.len() == 0 {
        seq![]
    } else if named_language(fas.last().language) {
        named_languages(fas.drop_last()).push(fas.last().language)
    } else {
        named_languages(fas.drop_last())
    }
}

fn join_strings(v: &Vec<String>, sep: &str) -> (res: String)
    ensures
        res@ == crate::text::join_seqs(string_views(v@), sep@),
{
    let mut parts: Vec<Vec<char>> = Vec::new();
    let mut i: usize = 0;
    while i < v.len()
        invariant
            i <= v@.len(),
            views(parts@) == string_views(v@).take(i as int),
        decreases v.len() - i,
    {
        let ghost before = views(parts@);
        let p = chars_of(v[i].as_str());
        let ghost pv = p@;
        parts.push(p);
        assert(views(parts@) =~= before.push(pv));
        assert(views(parts@) =~= string_views(v@).take(i + 1));
        i = i + 1;
    }
    assert(string_views(v@).take(i as int) =~= string_views(v@));
    let j = crate::text::join_parts(&parts, sep);
    to_string(&j)
}

/// The languages of the analysed files for the prompt: the named ones,
/// each once in order of first appearance, separated by commas.
pub fn analysis_language_info(fas: &Vec<FileAnalysis>) -> (res: String)
    ensures
        res@ == crate::text::join_seqs(
            crate::tallies::first_appearances(named_languages(analysis_views(fas@))),
            ", "@,
        ),
{
    let ghost av = analysis_views(fas@);
    let mut langs: Vec<String> = Vec::new();
    let mut i: usize = 0;
    while i < fas.len()
        invariant
            av == analysis_views(fas@),
            i <= av.len(),
            string_views(langs@) == named_languages(av.take(i as int)),
        decreases fas.len() - i,
    {
        proof {
            assert(av.take(i + 1).drop_last() =~= av.take(i as int));
            assert(av.take(i + 1).last() == fas@[i as int]@);
        }
        let l = &fas[i].language;
        let ghost before = string_views(langs@);
        let c = chars_of(l.as_str());
        if c.len() > 0 && !string_eq_str(l, "unknown") && !string_eq_str(l, "error")
            && !string_eq_str(l, "text") {
            langs.push(l.clone());
            assert(string_views(langs@) =~= before.push(l@));
        }
        i = i + 1;
    }
    assert(av.take(i as int) =~= av);
    let distinct = crate::tallies::distinct_strings(&langs);
    join_strings(&distinct, ", ")
}

/// The languages of the changed files by their paths, for the prompt: each
/// once in order of first appearance, separated by commas.
pub fn path_language_info(git_diff: &GitDiff) -> (res: String)
    ensures
        res@ == crate::text::join_seqs(
            crate::tallies::first_appearances(
                crate::tree_sitter_analyzer::simple_diff::diff_languages(git_diff@.changed_files),
            ),
            ", "@,
        ),
{
    let ghost fs = git_diff@.changed_files;
    let mut langs: Vec<String> = Vec::new();
    let mut i: usize = 0;
    while i < git_diff.changed_files.len()
        invariant
            fs == git_diff@.changed_files,
            i <= fs.len(),
            string_views(langs@) == crate::tree_sitter_analyzer::simple_diff::diff_languages(
                fs.take(i as int),
            ),
        decreases git_diff.changed_files.len() - i,
    {
        proof {
            assert(fs.take(i + 1).drop_last() =~= fs.take(i as int));
            assert(fs.take(i + 1).last() == git_diff.changed_files@[i as int]@);
        }
        let ghost before = string_views(langs@);
        match crate::tree_sitter_analyzer::simple_diff::detect_language_from_path(
            git_diff.changed_files[i].path.as_str(),
        ) {
            Some(l) => {
                let ghost lv = l@;
                langs.push(l);
                assert(string_views(langs@) =~= before.push(lv));
            },
            None => {},
        }
        i = i + 1;
    }
    assert(fs.take(i as int) =~= fs);
    let distinct = crate::tallies::distinct_strings(&langs);
    join_strings(&distinct, ", ")
}

/// The system prompt of a review request.
pub fn review_system_prompt() -> (res: String)
    ensures
        res@ == "您是一位经验丰富的代码评审专家，精通多种编程语言和软件开发最佳实践。"@,
{
    String::from_str("您是一位经验丰富的代码评审专家，精通多种编程语言和软件开发最佳实践。")
}

/// The review shown when the AI cannot be reached.
pub fn unreachable_ai_review() -> (res: String)
    ensures
        res@ == "# 代码评审结果\n\n无法连接到 AI 服务，请检查网络连接和 API 配置。\n\n## 基本代码检查\n\n- 检测到代码变更\n- 建议手动检查代码质量和安全性\n"@,
{
    String::from_str(
        "# 代码评审结果\n\n无法连接到 AI 服务，请检查网络连接和 API 配置。\n\n## 基本代码检查\n\n- 检测到代码变更\n- 建议手动检查代码质量和安全性\n",
    )
}

/// The review command's check of the diff: a blank diff cannot be
/// reviewed.
pub fn check_review_diff(diff_text: &str) -> (res: Result<(), AppError>)
    ensures
        trim_seq(diff_text@).len() == 0 ==> (res matches Err(AppError::Generic(m)) && m@
            == "没有检测到代码变更，无法执行评审。"@),
        trim_seq(diff_text@).len() > 0 ==> res is Ok,
{
    let c = chars_of(diff_text);
    if is_blank(c.as_slice()) {
        Err(AppError::Generic(String::from_str("没有检测到代码变更，无法执行评审。")))
    } else {
        Ok(())
    }
}

// ---------------------------------------------------------------------------
// Reviewing before a commit
// ---------------------------------------------------------------------------

/// The review arguments used before a commit: normal depth, text format,
/// the structural analysis when the commit asks for it, nothing else set.
pub fn commit_review_args(args: &crate::cli_interface::args::CommitArgs) -> (res: ReviewArgs)
    ensures
        res.depth@ == "normal"@ && res.format@ == "text"@ && res.focus is None && res.lang is None
            && res.output is None && res.tree_sitter == args.tree_sitter is Some
            && !res.no_tree_sitter && !res.review_ts && res.passthrough_args@.len() == 0
            && res.commit1 is None && res.commit2 is None,
{
    ReviewArgs {
        depth: String::from_str("normal"),
        focus: None,
        lang: None,
        format: String::from_str("text"),
        output: None,
        tree_sitter: args.tree_sitter.is_some(),
        no_tree_sitter: false,
        review_ts: false,
        commit1: None,
        commit2: None,
        passthrough_args: Vec::new(),
    }
}

/// One line per changed file, `- ` and its path.
pub open spec fn dash_paths(fs: Seq<ChangedFileModel>) -> Seq<char>
    decreases fs.len(),
{
    if fs.len() == 0 {
        seq![]
    } else {
        dash_paths(fs.drop_last()) + "- "@ + fs.last().path + "\n"@
    }
}

/// The analysis text of a review before a commit, with the changed files.
pub open spec fn pre_commit_analysis(fs: Seq<ChangedFileModel>) -> Seq<char> {
    "## 初步代码检查\n\n提交前评审，检查代码质量和潜在问题。\n"@ + if fs.len() > 0 {
        "\n### 检测到的文件：\n"@ + dash_paths(fs)
    } else {
        seq![]
    }
}

/// The analysis text of a review before a commit (see
/// `pre_commit_analysis`).
pub fn pre_commit_analysis_text(git_diff: &GitDiff) -> (res: String)
    ensures
        res@ == pre_commit_analysis(git_diff@.changed_files),
{
    let ghost fs = git_diff@.changed_files;
    let mut v: Vec<char> = Vec::new();
    extend_str(&mut v, "## 初步代码检查\n\n提交前评审，检查代码质量和潜在问题。\n");
    if git_diff.changed_files.len() > 0 {
        extend_str(&mut v, "\n### 检测到的文件：\n");
        let ghost v0 = v@;
        let mut i: usize = 0;
        while i < git_diff.changed_files.len()
            invariant
                fs == git_diff@.changed_files,
                i <= fs.len(),
                v@ == v0 + dash_paths(fs.take(i as int)),
            decreases git_diff.changed_files.len() - i,
        {
            proof {
                assert(fs.take(i + 1).drop_last() =~= fs.take(i as int));
                assert(fs.take(i + 1).last() == git_diff.changed_files@[i as int]@);
            }
            let ghost before = v@;
            extend_str(&mut v, "- ");
            extend_string(&mut v, &git_diff.changed_files[i].path);
            extend_str(&mut v, "\n");
            assert(v@ =~= before + "- "@ + git_diff.changed_files@[i as int].path@ + "\n"@);
            i = i + 1;
        }
        assert(fs.take(i as int) =~= fs);
    }
    assert(v@ =~= pre_commit_analysis(fs));
    to_string(&v)
}

/// The review shown before a commit when the AI cannot be reached.
pub fn unreachable_ai_pre_commit_review() -> (res: String)
    ensures
        res@ == "# 代码评审结果\n\n无法连接到 AI 服务，请检查网络连接和 API 配置。\n\n建议手动检查代码质量后再提交。"@,
{
    String::from_str(
        "# 代码评审结果\n\n无法连接到 AI 服务，请检查网络连接和 API 配置。\n\n建议手动检查代码质量后再提交。",
    )
}

/// Whether the answer to the question whether to go on with the commit is
/// yes: `y`, without regard to case or surrounding white space.
pub fn answer_continues_commit(input: &str) -> (res: bool)
    ensures
        res == (lowercase_of(trim_seq(input@)) == "y"@),
{
    let c = chars_of(input);
    let t = trim_chars(c.as_slice());
    let ts = to_string(&t);
    let l = to_lowercase(ts.as_str());
    string_eq_str(&l, "y")
}

} // verus!
