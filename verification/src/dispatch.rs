//! How a command line is dispatched: Tree-sitter flags are taken out, and
//! the remaining arguments select a review, a commit, help, or Git itself;
//! and what is reported when a Git command run on the user's behalf fails.

use vstd::prelude::*;
use vstd::string::StringExecFns;
use crate::cli_interface::args::{
    contains_arg, has_arg, CommitArgs, ReviewArgs,
};
use crate::errors::{AppError, GitError};
use crate::text::{extend_str, extend_string, is_prefix_of, starts_with_char, string_eq_str, string_views, to_string};

verus! {

// ---------------------------------------------------------------------------
// Taking out Tree-sitter flags
// ---------------------------------------------------------------------------

/// A Tree-sitter flag of the command line: `--tree-sitter` or `-t`.
pub open spec fn is_ts_option(a: Seq<char>) -> bool {
    a == "--tree-sitter"@ || a == "-t"@
}

/// The arguments from `i` on without Tree-sitter flags and their values;
/// `skip` says that the argument at `i` is the value of a flag just before
/// it. A flag's value is the next argument when it does not start with `-`.
pub open spec fn without_ts_from(args: Seq<Seq<char>>, i: int, skip: bool) -> Seq<Seq<char>>
    decreases args.len() - i,
{
    if i < 0 || i >= args.len() {
        seq![]
    } else if skip {
        without_ts_from(args, i + 1, false)
    } else if is_ts_option(args[i]) {
        without_ts_from(
            args,
            i + 1,
            i + 1 < args.len() && !(args[i + 1].len() > 0 && args[i + 1][0] == '-'),
        )
    } else {
        seq![args[i]] + without_ts_from(args, i + 1, false)
    }
}

/// The arguments without Tree-sitter flags: when the first argument is
/// `tree-sitter` and others follow, the others; otherwise every argument but
/// the Tree-sitter flags and their values.
pub open spec fn filtered_args(args: Seq<Seq<char>>) -> Seq<Seq<char>> {
    if args.len() > 1 && args[0] == "tree-sitter"@ {
        args.skip(1)
    } else {
        without_ts_from(args, 0, false)
    }
}

/// Takes the Tree-sitter flags, and their values, out of the arguments (see
/// `filtered_args`).
pub fn filter_tree_sitter_args(args: &Vec<String>) -> (res: Vec<String>)
    ensures
        string_views(res@) == filtered_args(string_views(args@)),
{
    let ghost av = string_views(args@);
    if args.len() > 1 && string_eq_str(&args[0], "tree-sitter") {
        let mut rest: Vec<String> = Vec::new();
        let mut k: usize = 1;
        while k < args.len()
            invariant
                av == string_views(args@),
                1 <= k <= av.len(),
                string_views(rest@) == av.subrange(1, k as int),
            decreases args.len() - k,
        {
            let ghost before = string_views(rest@);
            let s = args[k].clone();
            let ghost sv = s@;
            rest.push(s);
            assert(string_views(rest@) =~= before.push(sv));
            assert(string_views(rest@) =~= av.subrange(1, k + 1));
            k = k + 1;
        }
        assert(av.subrange(1, k as int) =~= av.skip(1));
        return rest;
    }
    let mut filtered: Vec<String> = Vec::new();
    let mut skip = false;
    let mut i: usize = 0;
    assert(string_views(filtered@) =~= Seq::<Seq<char>>::empty());
    while i < args.len()
        invariant
            av == string_views(args@),
            i <= av.len(),
            string_views(filtered@) + without_ts_from(av, i as int, skip) == without_ts_from(
                av,
                0,
                false,
            ),
        decreases args.len() - i,
    {
        let ghost before = string_views(filtered@);
        assert(av[i as int] == args@[i as int]@);
        if skip {
            skip = false;
        } else if string_eq_str(&args[i], "--tree-sitter") || string_eq_str(&args[i], "-t") {
            if i + 1 < args.len() {
                let c = crate::text::chars_of(args[i + 1].as_str());
                assert(av[i + 1] == args@[i + 1]@);
                skip = !starts_with_char(c.as_slice(), '-');
            } else {
                skip = false;
            }
        } else {
            let s = args[i].clone();
            let ghost sv = s@;
            filtered.push(s);
            assert(string_views(filtered@) =~= before.push(sv));
            assert(before.push(sv) + without_ts_from(av, i + 1, false) =~= before + (seq![av[i as int]]
                + without_ts_from(av, i + 1, false)));
        }
        i = i + 1;
    }
    assert(string_views(filtered@) + without_ts_from(av, i as int, skip) =~= string_views(
        filtered@,
    ));
    filtered
}

// ---------------------------------------------------------------------------
// Choosing what to do
// ---------------------------------------------------------------------------

/// The position of the first argument spelled `word`, from `i` on, or -1.
pub open spec fn first_position(args: Seq<Seq<char>>, word: Seq<char>, i: int) -> int
    decreases args.len() - i,
{
    if i < 0 || i >= args.len() {
        -1
    } else if args[i] == word {
        i
    } else {
        first_position(args, word, i + 1)
    }
}

/// The arguments after the first one spelled `word` (after the first
/// argument when there is none).
pub open spec fn args_after(args: Seq<Seq<char>>, word: Seq<char>) -> Seq<Seq<char>> {
    let p = first_position(args, word, 0);
    let k = if p < 0 {
        0
    } else {
        p
    };
    if k + 1 < args.len() {
        args.skip(k + 1)
    } else {
        seq![]
    }
}

/// What a command line asks for.
pub enum Route {
    /// Run `git` without arguments on the terminal.
    GitHelp,
    /// Review; the arguments for the parser (`gitie review` and the rest).
    Review(Vec<String>),
    /// Commit; the arguments for the parser (`gitie commit` and the rest).
    Commit(Vec<String>),
    /// Show this tool's help and Git's, explained by the AI when `use_ai`.
    Help { use_ai: bool },
    /// Run Git with these arguments; with AI help on errors when `use_ai`.
    Git { args: Vec<String>, use_ai: bool },
}

/// The abstract value of a route.
pub enum RouteModel {
    GitHelp,
    Review(Seq<Seq<char>>),
    Commit(Seq<Seq<char>>),
    Help { use_ai: bool },
    Git { args: Seq<Seq<char>>, use_ai: bool },
}

impl View for Route {
    type V = RouteModel;

    open spec fn view(&self) -> RouteModel {
        match self {
            Route::GitHelp => RouteModel::GitHelp,
            Route::Review(a) => RouteModel::Review(string_views(a@)),
            Route::Commit(a) => RouteModel::Commit(string_views(a@)),
            Route::Help { use_ai } => RouteModel::Help { use_ai: *use_ai },
            Route::Git { args, use_ai } => RouteModel::Git { args: string_views(args@), use_ai: *use_ai },
        }
    }
}

/// What a command line (program name first) asks for: Git's own help when
/// there is nothing else or `--noai` is given; otherwise, on the arguments
/// without Tree-sitter flags, a review or a commit when named and no help
/// flag is given, this tool's help when a help flag is given, and Git
/// itself for anything else (with AI help unless `--noai`).
pub open spec fn route_of(args: Seq<Seq<char>>) -> RouteModel {
    if args.len() <= 1 || has_arg(args, "--noai"@) {
        RouteModel::GitHelp
    } else {
        let f = filtered_args(args.skip(1));
        let no_help = !has_arg(f, "--help"@) && !has_arg(f, "-h"@);
        if has_arg(f, "review"@) && no_help {
            RouteModel::Review(seq!["gitie"@, "review"@] + args_after(f, "review"@))
        } else if has_arg(f, "commit"@) && no_help {
            RouteModel::Commit(seq!["gitie"@, "commit"@] + args_after(f, "commit"@))
        } else if has_arg(f, "-h"@) || has_arg(f, "--help"@) {
            RouteModel::Help { use_ai: !has_arg(f, "--noai"@) }
        } else {
            RouteModel::Git { args: f, use_ai: !has_arg(f, "--noai"@) }
        }
    }
}

/// A flag that starts with `-` and is no Tree-sitter flag survives the
/// filtering of the arguments from `i` on, wherever it stands there.
proof fn lemma_flag_kept_from(args: Seq<Seq<char>>, i: int, skip: bool, k: int, x: Seq<char>)
    requires
        0 <= i <= k < args.len(),
        args[k] == x,
        x.len() > 0 && x[0] == '-',
        !is_ts_option(x),
        k > i || !skip,
    ensures
        has_arg(without_ts_from(args, i, skip), x),
    decreases args.len() - i,
{
    let r = without_ts_from(args, i, skip);
    if skip {
        lemma_flag_kept_from(args, i + 1, false, k, x);
    } else if is_ts_option(args[i]) {
        let next = i + 1 < args.len() && !(args[i + 1].len() > 0 && args[i + 1][0] == '-');
        lemma_flag_kept_from(args, i + 1, next, k, x);
    } else if k == i {
        assert(r[0] == x);
    } else {
        lemma_flag_kept_from(args, i + 1, false, k, x);
        let rest = without_ts_from(args, i + 1, false);
        let j = choose|j: int| 0 <= j < rest.len() && rest[j] == x;
        assert(r[j + 1] == x);
    }
}

/// What the filtering of the arguments from `i` on keeps stands among them.
proof fn lemma_kept_is_given(args: Seq<Seq<char>>, i: int, skip: bool, x: Seq<char>)
    requires
        0 <= i,
        has_arg(without_ts_from(args, i, skip), x),
    ensures
        exists|k: int| i <= k < args.len() && args[k] == x,
    decreases args.len() - i,
{
    let r = without_ts_from(args, i, skip);
    if i >= args.len() {
    } else if skip {
        lemma_kept_is_given(args, i + 1, false, x);
    } else if is_ts_option(args[i]) {
        let next = i + 1 < args.len() && !(args[i + 1].len() > 0 && args[i + 1][0] == '-');
        lemma_kept_is_given(args, i + 1, next, x);
    } else {
        let rest = without_ts_from(args, i + 1, false);
        let j = choose|j: int| 0 <= j < r.len() && r[j] == x;
        if j == 0 {
            assert(args[i] == x);
        } else {
            assert(rest[j - 1] == x);
            lemma_kept_is_given(args, i + 1, false, x);
        }
    }
}

/// A flag that starts with `-` and is no Tree-sitter flag is among the
/// filtered arguments exactly when it is among the arguments.
proof fn lemma_flag_survives_filtering(a: Seq<Seq<char>>, x: Seq<char>)
    requires
        x.len() > 0 && x[0] == '-',
        !is_ts_option(x),
    ensures
        has_arg(filtered_args(a), x) <==> has_arg(a, x),
{
    if a.len() > 1 && a[0] == "tree-sitter"@ {
        reveal_strlit("tree-sitter");
        if has_arg(a, x) {
            let k = choose|k: int| 0 <= k < a.len() && a[k] == x;
            assert(k != 0);
            assert(a.skip(1)[k - 1] == x);
        }
        if has_arg(filtered_args(a), x) {
            let j = choose|j: int| 0 <= j < a.skip(1).len() && a.skip(1)[j] == x;
            assert(a[j + 1] == x);
        }
    } else {
        if has_arg(a, x) {
            let k = choose|k: int| 0 <= k < a.len() && a[k] == x;
            lemma_flag_kept_from(a, 0, false, k, x);
        }
        if has_arg(filtered_args(a), x) {
            lemma_kept_is_given(a, 0, false, x);
        }
    }
}

/// Law: a help flag (`--help` or `-h`) after the program's name, without
/// `--noai`, always shows this tool's help with the AI's explanation; it
/// never starts a review or a commit, whatever else the line holds.
pub proof fn law_help_flag_shows_help(args: Seq<Seq<char>>)
    requires
        args.len() > 0,
        has_arg(args.skip(1), "--help"@) || has_arg(args.skip(1), "-h"@),
        !has_arg(args, "--noai"@),
    ensures
        route_of(args) == (RouteModel::Help { use_ai: true }),
{
    reveal_strlit("--help");
    reveal_strlit("-h");
    reveal_strlit("--noai");
    reveal_strlit("--tree-sitter");
    reveal_strlit("-t");
    let a = args.skip(1);
    let f = filtered_args(a);
    assert("--help"@.len() == 6 && "-h"@.len() == 2 && "--noai"@.len() == 6);
    assert("--tree-sitter"@.len() == 13 && "-t"@.len() == 2);
    assert("-h"@[1] == 'h' && "-t"@[1] == 't');
    assert("--help"@[0] == '-' && "-h"@[0] == '-' && "--noai"@[0] == '-');
    assert(!is_ts_option("-h"@)) by {
        if "-h"@ == "-t"@ {
            assert("-h"@[1] == "-t"@[1]);
        }
    }
    lemma_flag_survives_filtering(a, "--help"@);
    lemma_flag_survives_filtering(a, "-h"@);
    lemma_flag_survives_filtering(a, "--noai"@);
    assert(args.len() > 1) by {
        if args.len() == 1 {
            assert(a.len() == 0);
        }
    }
    assert(!has_arg(a, "--noai"@)) by {
        if has_arg(a, "--noai"@) {
            let k = choose|k: int| 0 <= k < a.len() && a[k] == "--noai"@;
            assert(args[k + 1] == "--noai"@);
        }
    }
}

/// Copies `args[from..]`.
fn copy_from(args: &Vec<String>, from: usize) -> (res: Vec<String>)
    requires
        from <= args@.len(),
    ensures
        string_views(res@) == string_views(args@).skip(from as int),
{
    let mut res: Vec<String> = Vec::new();
    let mut k: usize = from;
    while k < args.len()
        invariant
            from <= k <= args@.len(),
            string_views(res@) == string_views(args@).subrange(from as int, k as int),
        decreases args.len() - k,
    {
        let ghost before = string_views(res@);
        let s = args[k].clone();
        let ghost sv = s@;
        res.push(s);
        assert(string_views(res@) =~= before.push(sv));
        assert(string_views(res@) =~= string_views(args@).subrange(from as int, k + 1));
        k = k + 1;
    }
    assert(string_views(args@).subrange(from as int, k as int) =~= string_views(args@).skip(
        from as int,
    ));
    res
}

/// The arguments after the first one spelled `word` (see `args_after`).
fn rest_after(args: &Vec<String>, word: &str) -> (res: Vec<String>)
    ensures
        string_views(res@) == args_after(string_views(args@), word@),
{
    let ghost av = string_views(args@);
    let mut k: usize = 0;
    let mut found = false;
    while k < args.len()
        invariant_except_break
            !found,
        invariant
            av == string_views(args@),
            k <= av.len(),
            first_position(av, word@, 0) == first_position(av, word@, k as int),
        ensures
            found ==> k < av.len() && av[k as int] == word@,
            !found ==> k == av.len(),
        decreases args.len() - k,
    {
        assert(av[k as int] == args@[k as int]@);
        if string_eq_str(&args[k], word) {
            found = true;
            break;
        }
        k = k + 1;
    }
    let start: usize = if found {
        k
    } else {
        0
    };
    proof {
        if found {
            assert(first_position(av, word@, k as int) == k);
        } else {
            assert(first_position(av, word@, k as int) == -1);
        }
    }
    if args.len() > 0 && start < args.len() - 1 {
        copy_from(args, start + 1)
    } else {
        let v: Vec<String> = Vec::new();
        assert(string_views(v@) =~= Seq::<Seq<char>>::empty());
        v
    }
}

/// `gitie <sub>` followed by the given arguments.
fn parser_args(sub: &str, rest: Vec<String>) -> (res: Vec<String>)
    ensures
        string_views(res@) == seq!["gitie"@, sub@] + string_views(rest@),
{
    let mut v: Vec<String> = vec![String::from_str("gitie"), String::from_str(sub)];
    let ghost head = string_views(v@);
    assert(head =~= seq!["gitie"@, sub@]);
    let mut r = rest;
    let ghost rv = string_views(r@);
    let mut i: usize = 0;
    let n = r.len();
    while i < n
        invariant
            n == rv.len(),
            i <= n,
            r@.len() == n - i,
            string_views(r@) == rv.skip(i as int),
            string_views(v@) == head + rv.take(i as int),
        decreases n - i,
    {
        let ghost r0 = r@;
        let s = r.remove(0);
        proof {
            assert(r@ == r0.remove(0));
            assert(string_views(r0)[0] == s@);
            assert forall|j: int| 0 <= j < r@.len() implies #[trigger] string_views(r@)[j] == rv.skip(i + 1)[j] by {
                assert(r@[j] == r0[j + 1]);
                assert(string_views(r0)[j + 1] == rv.skip(i as int)[j + 1]);
            }
            assert(string_views(r@) =~= rv.skip(i + 1));
            assert(rv.skip(i as int)[0] == rv[i as int]);
        }
        let ghost before = string_views(v@);
        let ghost sv = s@;
        v.push(s);
        assert(string_views(v@) =~= before.push(sv));
        assert(string_views(v@) =~= head + rv.take(i + 1));
        i = i + 1;
    }
    assert(rv.take(i as int) =~= rv);
    v
}

/// What a command line asks for (see `route_of`); the first argument is the
/// program's name.
pub fn route_command(args: &Vec<String>) -> (res: Route)
    ensures
        res@ == route_of(string_views(args@)),
{
    if args.len() <= 1 || contains_arg(args.as_slice(), "--noai") {
        return Route::GitHelp;
    }
    let rest = copy_from(args, 1);
    let f = filter_tree_sitter_args(&rest);
    let no_help = !contains_arg(f.as_slice(), "--help") && !contains_arg(f.as_slice(), "-h");
    if contains_arg(f.as_slice(), "review") && no_help {
        return Route::Review(parser_args("review", rest_after(&f, "review")));
    }
    if contains_arg(f.as_slice(), "commit") && no_help {
        return Route::Commit(parser_args("commit", rest_after(&f, "commit")));
    }
    let use_ai = !contains_arg(f.as_slice(), "--noai");
    if contains_arg(f.as_slice(), "-h") || contains_arg(f.as_slice(), "--help") {
        return Route::Help { use_ai };
    }
    Route::Git { args: f, use_ai }
}

/// The review arguments used when the review command line cannot be
/// parsed: normal depth, text format, nothing else set.
pub fn default_review_args() -> (res: ReviewArgs)
    ensures
        res.depth@ == "normal"@ && res.format@ == "text"@ && res.focus is None && res.lang is None
            && res.output is None && !res.tree_sitter && !res.no_tree_sitter && !res.review_ts
            && res.passthrough_args@.len() == 0 && res.commit1 is None && res.commit2 is None,
{
    ReviewArgs {
        depth: String::from_str("normal"),
        focus: None,
        lang: None,
        format: String::from_str("text"),
        output: None,
        tree_sitter: false,
        no_tree_sitter: false,
        review_ts: false,
        commit1: None,
        commit2: None,
        passthrough_args: Vec::new(),
    }
}

/// The commit arguments used when the commit command line cannot be
/// parsed, read from the arguments without Tree-sitter flags: AI unless
/// `--noai`; Tree-sitter at medium depth when a Tree-sitter flag remains;
/// staging with `--all` or `-a`; review with `--review`; and the arguments
/// after `commit` passed on.
pub fn default_commit_args(filtered: &Vec<String>) -> (res: CommitArgs)
    ensures
        res.ai == !has_arg(string_views(filtered@), "--noai"@),
        res.noai == has_arg(string_views(filtered@), "--noai"@),
        (has_arg(string_views(filtered@), "--tree-sitter"@) || has_arg(
            string_views(filtered@),
            "-t"@,
        )) ==> (res.tree_sitter matches Some(t) && t@ == "medium"@),
        !(has_arg(string_views(filtered@), "--tree-sitter"@) || has_arg(
            string_views(filtered@),
            "-t"@,
        )) ==> res.tree_sitter is None,
        res.auto_stage == (has_arg(string_views(filtered@), "--all"@) || has_arg(
            string_views(filtered@),
            "-a"@,
        )),
        res.message is None,
        res.review == has_arg(string_views(filtered@), "--review"@),
        string_views(res.passthrough_args@) == args_after(string_views(filtered@), "commit"@),
{
    let noai = contains_arg(filtered.as_slice(), "--noai");
    let ts = contains_arg(filtered.as_slice(), "--tree-sitter") || contains_arg(
        filtered.as_slice(),
        "-t",
    );
    CommitArgs {
        ai: !noai,
        noai,
        tree_sitter: if ts {
            Some(String::from_str("medium"))
        } else {
            None
        },
        auto_stage: contains_arg(filtered.as_slice(), "--all") || contains_arg(
            filtered.as_slice(),
            "-a",
        ),
        message: None,
        review: contains_arg(filtered.as_slice(), "--review"),
        passthrough_args: rest_after(filtered, "commit"),
    }
}

/// This tool's help followed by Git's.
pub fn combined_help(gitie_help: &String, git_help: &String) -> (res: String)
    ensures
        res@ == gitie_help@ + "\n\n== 标准 Git 帮助 ==\n\n"@ + git_help@,
{
    let mut v: Vec<char> = Vec::new();
    extend_string(&mut v, gitie_help);
    extend_str(&mut v, "\n\n== 标准 Git 帮助 ==\n\n");
    extend_string(&mut v, git_help);
    to_string(&v)
}

// ---------------------------------------------------------------------------
// Running Git on the user's behalf
// ---------------------------------------------------------------------------

/// The error when Git is not available.
pub fn git_unavailable_error() -> (res: AppError)
    ensures
        res matches AppError::Git(GitError::CommandFailed { command, status_code, stdout, stderr })
            && command@ == "git --version"@ && status_code is None && stdout@.len() == 0
            && stderr@ == "Git command not found"@,
{
    let e = GitError::CommandFailed {
        command: String::from_str("git --version"),
        status_code: None,
        stdout: String::new(),
        stderr: String::from_str("Git command not found"),
    };
    AppError::Git(e)
}

/// The error when Git's availability cannot be checked.
pub fn availability_check_error() -> (res: AppError)
    ensures
        res matches AppError::Generic(m) && m@ == "Failed to check if git is available"@,
{
    AppError::Generic(String::from_str("Failed to check if git is available"))
}

/// The error when it cannot be checked whether the directory is in a
/// repository.
pub fn repository_check_error() -> (res: AppError)
    ensures
        res matches AppError::Generic(m) && m@
            == "Failed to check if directory is a git repository"@,
{
    AppError::Generic(String::from_str("Failed to check if directory is a git repository"))
}

/// The error output and command of a failed Git command to have explained
/// by the AI: only for a failed command with captured output, and only when
/// the original arguments allow AI.
pub fn error_to_explain(error: &AppError, original_args: &Vec<String>) -> (res: Option<(String, String)>)
    ensures
        match error {
            AppError::Git(GitError::CommandFailed { command, stderr, .. }) => if !has_arg(
                string_views(original_args@),
                "--noai"@,
            ) {
                res matches Some(p) && p.0@ == stderr@ && p.1@ == command@
            } else {
                res is None
            },
            _ => res is None,
        },
{
    match error {
        AppError::Git(GitError::CommandFailed { command, stderr, .. }) => {
            if !contains_arg(original_args.as_slice(), "--noai") {
                Some((stderr.clone(), command.clone()))
            } else {
                None
            }
        },
        _ => None,
    }
}

/// How an explained error is shown after the error output.
pub fn explained_error_text(explanation: &String) -> (res: String)
    ensures
        res@ == "\n错误解释:\n"@ + explanation@,
{
    let mut v: Vec<char> = Vec::new();
    extend_str(&mut v, "\n错误解释:\n");
    extend_string(&mut v, explanation);
    to_string(&v)
}

} // verus!
