//! The arguments of gitie's own subcommands and the flag predicates that
//! decide between AI assistance, Tree-sitter analysis and plain Git.

use vstd::prelude::*;
use vstd::string::StringExecFns;
use crate::text::{
    chars_of, contains_char, is_prefix_of, starts_with, starts_with_char, string_eq_str,
    string_views, strip_prefixes, strip_prefixes_str, to_string, contains_seq,
};

verus! {

/// The arguments of gitie's own subcommands.
#[derive(Debug)]
pub struct GitieArgs {
    pub command: GitieSubCommand,
}

/// The subcommands that gitie itself understands.
#[derive(Debug, Clone)]
pub enum GitieSubCommand {
    /// A commit, possibly with an AI-generated message.
    Commit(CommitArgs),
    /// A code review with AI assistance.
    Review(ReviewArgs),
}

/// Arguments of the `commit` subcommand.
#[derive(Debug, Clone)]
pub struct CommitArgs {
    /// Use AI for the message (the default; kept for compatibility).
    pub ai: bool,
    /// Disable AI and behave as plain `git commit`.
    pub noai: bool,
    /// Tree-sitter analysis depth, if enabled.
    pub tree_sitter: Option<String>,
    /// Stage all tracked, modified files first (`-a`).
    pub auto_stage: bool,
    /// A message given directly.
    pub message: Option<String>,
    /// Review the changes before committing.
    pub review: bool,
    /// Further arguments for `git commit`.
    pub passthrough_args: Vec<String>,
}

/// Arguments of the `review` subcommand.
#[derive(Debug, Clone)]
pub struct ReviewArgs {
    /// Analysis depth level.
    pub depth: String,
    /// Focus areas of the review.
    pub focus: Option<String>,
    /// Limit the analysis to one language.
    pub lang: Option<String>,
    /// Output format.
    pub format: String,
    /// Output file.
    pub output: Option<String>,
    /// Use Tree-sitter (the default).
    pub tree_sitter: bool,
    /// Disable Tree-sitter.
    pub no_tree_sitter: bool,
    /// Review combined with Tree-sitter analysis.
    pub review_ts: bool,
    /// First commit reference.
    pub commit1: Option<String>,
    /// Second commit reference.
    pub commit2: Option<String>,
    /// Further arguments for Git.
    pub passthrough_args: Vec<String>,
}

/// Some argument is spelled exactly `flag`.
pub open spec fn has_arg(args: Seq<Seq<char>>, flag: Seq<char>) -> bool {
    exists|i: int| 0 <= i < args.len() && args[i] == flag
}

pub fn contains_arg(args: &[String], flag: &str) -> (res: bool)
    ensures
        res == has_arg(string_views(args@), flag@),
{
    let mut i: usize = 0;
    while i < args.len()
        invariant
            i <= args@.len(),
            forall|j: int| 0 <= j < i ==> args@[j]@ != flag@,
        decreases args.len() - i,
    {
        if string_eq_str(&args[i], flag) {
            assert(string_views(args@)[i as int] == flag@);
            return true;
        }
        i = i + 1;
    }
    assert forall|j: int| 0 <= j < args@.len() implies string_views(args@)[j] != flag@ by {
        assert(string_views(args@)[j] == args@[j]@);
    }
    false
}

/// Whether the arguments hold `-h` or `--help`.
pub fn args_contain_help(args: &[String]) -> (res: bool)
    ensures
        res == (has_arg(string_views(args@), "-h"@) || has_arg(string_views(args@), "--help"@)),
{
    contains_arg(args, "-h") || contains_arg(args, "--help")
}

/// Whether the arguments hold `--ai`.
pub fn args_contain_ai(args: &[String]) -> (res: bool)
    ensures
        res == has_arg(string_views(args@), "--ai"@),
{
    contains_arg(args, "--ai")
}

/// Whether the arguments hold `--noai`.
pub fn args_contain_noai(args: &[String]) -> (res: bool)
    ensures
        res == has_arg(string_views(args@), "--noai"@),
{
    contains_arg(args, "--noai")
}

/// Whether AI should be used: always, unless `--noai` is present (which
/// wins over `--ai`).
pub fn should_use_ai(args: &[String]) -> (res: bool)
    ensures
        res == !has_arg(string_views(args@), "--noai"@),
{
    !args_contain_noai(args)
}

/// An argument that asks for Tree-sitter: `--tree-sitter`, `-t`, or a group
/// of short options (one leading `-`) that includes `t`.
pub open spec fn is_tree_sitter_flag(a: Seq<char>) -> bool {
    ||| a == "--tree-sitter"@
    ||| a == "-t"@
    ||| (a.len() > 0 && a[0] == '-' && !is_prefix_of("--"@, a) && a.contains('t'))
}

/// Whether some argument asks for Tree-sitter analysis.
pub fn args_contain_tree_sitter(args: &[String]) -> (res: bool)
    ensures
        res == exists|i: int| 0 <= i < args@.len() && is_tree_sitter_flag(#[trigger] args@[i]@),
{
    let mut i: usize = 0;
    while i < args.len()
        invariant
            i <= args@.len(),
            forall|j: int| 0 <= j < i ==> !is_tree_sitter_flag(#[trigger] args@[j]@),
        decreases args.len() - i,
    {
        let a = chars_of(args[i].as_str());
        if string_eq_str(&args[i], "--tree-sitter") || string_eq_str(&args[i], "-t") {
            return true;
        }
        if starts_with_char(a.as_slice(), '-') && !starts_with(a.as_slice(), "--")
            && contains_char(a.as_slice(), 't') {
            return true;
        }
        i = i + 1;
    }
    false
}

/// The Tree-sitter level that the arguments from position `i` on give: the
/// word after a `--tree-sitter` that does not start with `-`, or the value
/// of a `--tree-sitter=` argument, whichever comes first.
pub open spec fn tree_sitter_level_from(args: Seq<Seq<char>>, i: int) -> Option<Seq<char>>
    decreases args.len() - i,
{
    if i < 0 || i >= args.len() {
        None
    } else if args[i] == "--tree-sitter"@ && i + 1 < args.len() && !(args[i + 1].len() > 0
        && args[i + 1][0] == '-') {
        Some(args[i + 1])
    } else if is_prefix_of("--tree-sitter="@, args[i]) {
        Some(strip_prefixes(args[i], "--tree-sitter="@))
    } else {
        tree_sitter_level_from(args, i + 1)
    }
}

/// The Tree-sitter analysis level named by the arguments, if any.
pub fn get_tree_sitter_level(args: &[String]) -> (res: Option<String>)
    ensures
        match res {
            Some(s) => tree_sitter_level_from(string_views(args@), 0) == Some(s@),
            None => tree_sitter_level_from(string_views(args@), 0) is None,
        },
{
    let ghost sv = string_views(args@);
    let mut i: usize = 0;
    while i < args.len()
        invariant
            i <= args@.len(),
            sv == string_views(args@),
            tree_sitter_level_from(sv, i as int) == tree_sitter_level_from(sv, 0),
        decreases args.len() - i,
    {
        assert(sv[i as int] == args@[i as int]@);
        if string_eq_str(&args[i], "--tree-sitter") && i + 1 < args.len() {
            let next = chars_of(args[i + 1].as_str());
            assert(sv[i + 1] == args@[i + 1]@);
            if !starts_with_char(next.as_slice(), '-') {
                return Some(args[i + 1].clone());
            }
        }
        let a = chars_of(args[i].as_str());
        if starts_with(a.as_slice(), "--tree-sitter=") {
            let v = strip_prefixes_str(a.as_slice(), "--tree-sitter=");
            return Some(to_string(&v));
        }
        i = i + 1;
    }
    None
}

/// Whether Tree-sitter analysis should be used (the arguments ask for it).
pub fn should_use_tree_sitter(args: &[String]) -> (res: bool)
    ensures
        res == exists|i: int| 0 <= i < args@.len() && is_tree_sitter_flag(#[trigger] args@[i]@),
{
    args_contain_tree_sitter(args)
}


/// The text of gitie's own help page.
pub open spec fn gitie_help_text() -> Seq<char> {
    "gitie: Git with AI assistance\n"@
        + "============================\n\n"@
        + "gitie 是一个增强型 git 工具，提供 AI 辅助功能来简化 git 使用。\n"@
        + "它可以像标准 git 一样使用，同时提供额外的 AI 功能。\n\n"@
        + "全局选项:\n"@
        + "  --ai                启用 AI 功能（默认已启用）\n"@
        + "  --noai              禁用 AI 功能\n"@
        + "  -t, --tree-sitter   启用 Tree-sitter 语法分析以改进 AI 功能\n"@
        + "                      可选值: shallow, medium (默认), deep\n\n"@
        + "Gitie 特有命令:\n"@
        + "  commit (cm)         增强的 git commit 命令，提供 AI 生成提交信息\n"@
        + "    选项:\n"@
        + "      --ai            使用 AI 生成提交信息（默认）\n"@
        + "      --noai          禁用 AI，使用标准 git 行为\n"@
        + "      -t, --tree-sitter=LEVEL\n"@
        + "                      启用 Tree-sitter 语法分析以改进提交信息\n"@
        + "      -a, --all       自动暂存所有已跟踪的修改文件（类似 git commit -a）\n"@
        + "      -m, --message   直接传递消息给提交\n"@
        + "      --review        在提交前执行代码评审\n\n"@
        + "  review (rv)         执行 AI 辅助的代码评审\n"@
        + "    选项:\n"@
        + "      --depth=LEVEL   分析深度级别 (默认: normal)\n"@
        + "      --focus=AREA    评审重点区域\n"@
        + "      --lang=LANGUAGE 限制分析到特定语言\n"@
        + "      --format=FORMAT 输出格式 (默认: text)\n"@
        + "      --output=FILE   输出文件\n"@
        + "      --ts            使用 Tree-sitter 进行增强代码分析（默认）\n"@
        + "      --no-ts         禁用 Tree-sitter 分析\n"@
        + "      --review-ts     结合评审与 tree-sitter 分析\n"@
        + "      --commit1=COMMIT 第一个提交引用\n"@
        + "      --commit2=COMMIT 第二个提交引用（如果比较两个提交）\n\n"@
        + "标准 git 命令:\n"@
        + "  所有标准 git 命令都可以正常使用，例如:\n"@
        + "  gitie status, gitie add, gitie push, 等等\n\n"@
        + "示例:\n"@
        + "  gitie commit        使用 AI 辅助生成提交信息\n"@
        + "  gitie commit --noai 禁用 AI，使用标准 git commit\n"@
        + "  gitie review        对当前更改执行 AI 辅助代码评审\n"@
        + "  gitie review --depth=deep --focus=\"性能问题\"\n"@
        + "                      执行深度代码评审，重点关注性能问题\n"@
}

/// gitie's own help page: its global options, its `commit` and `review`
/// subcommands, and examples.
pub fn generate_gitie_help() -> (help: String)
    ensures
        help@ == gitie_help_text(),
{
    let mut help = String::new();
    help.append("gitie: Git with AI assistance\n");
    help.append("============================\n\n");
    help.append("gitie 是一个增强型 git 工具，提供 AI 辅助功能来简化 git 使用。\n");
    help.append("它可以像标准 git 一样使用，同时提供额外的 AI 功能。\n\n");
    help.append("全局选项:\n");
    help.append("  --ai                启用 AI 功能（默认已启用）\n");
    help.append("  --noai              禁用 AI 功能\n");
    help.append("  -t, --tree-sitter   启用 Tree-sitter 语法分析以改进 AI 功能\n");
    help.append("                      可选值: shallow, medium (默认), deep\n\n");
    help.append("Gitie 特有命令:\n");
    help.append("  commit (cm)         增强的 git commit 命令，提供 AI 生成提交信息\n");
    help.append("    选项:\n");
    help.append("      --ai            使用 AI 生成提交信息（默认）\n");
    help.append("      --noai          禁用 AI，使用标准 git 行为\n");
    help.append("      -t, --tree-sitter=LEVEL\n");
    help.append("                      启用 Tree-sitter 语法分析以改进提交信息\n");
    help.append("      -a, --all       自动暂存所有已跟踪的修改文件（类似 git commit -a）\n");
    help.append("      -m, --message   直接传递消息给提交\n");
    help.append("      --review        在提交前执行代码评审\n\n");
    help.append("  review (rv)         执行 AI 辅助的代码评审\n");
    help.append("    选项:\n");
    help.append("      --depth=LEVEL   分析深度级别 (默认: normal)\n");
    help.append("      --focus=AREA    评审重点区域\n");
    help.append("      --lang=LANGUAGE 限制分析到特定语言\n");
    help.append("      --format=FORMAT 输出格式 (默认: text)\n");
    help.append("      --output=FILE   输出文件\n");
    help.append("      --ts            使用 Tree-sitter 进行增强代码分析（默认）\n");
    help.append("      --no-ts         禁用 Tree-sitter 分析\n");
    help.append("      --review-ts     结合评审与 tree-sitter 分析\n");
    help.append("      --commit1=COMMIT 第一个提交引用\n");
    help.append("      --commit2=COMMIT 第二个提交引用（如果比较两个提交）\n\n");
    help.append("标准 git 命令:\n");
    help.append("  所有标准 git 命令都可以正常使用，例如:\n");
    help.append("  gitie status, gitie add, gitie push, 等等\n\n");
    help.append("示例:\n");
    help.append("  gitie commit        使用 AI 辅助生成提交信息\n");
    help.append("  gitie commit --noai 禁用 AI，使用标准 git commit\n");
    help.append("  gitie review        对当前更改执行 AI 辅助代码评审\n");
    help.append("  gitie review --depth=deep --focus=\"性能问题\"\n");
    help.append("                      执行深度代码评审，重点关注性能问题\n");
    help
}

} // verus!
