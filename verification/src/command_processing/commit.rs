//! The decisions and texts of the `commit` command: the arguments of a
//! plain `git commit`, whether a message is generated, the request for it,
//! and the commit made with it.
//!
//! Running Git and asking the AI are the caller's part.

use vstd::prelude::*;
use vstd::string::StringExecFns;
use crate::ai_utils::{clean_ai_output, without_think_blocks, ChatMessage};
use crate::cli_interface::args::{contains_arg, has_arg, CommitArgs};
use crate::errors::{AIError, AppError, GitError};
use crate::explainer::{message_views, prompt_or_empty, prompt_text, request, request_messages, ChatMessageModel};
use crate::text::{
    chars_of, contains_char, extend_str, extend_string, is_blank, is_prefix_of, starts_with,
    starts_with_char, string_eq_str, string_views, to_string, trim_chars, trim_seq,
};

verus! {

/// An option that stages all tracked changes: `-a`, `--all`, or a group of
/// short options (one leading `-`) that includes `a`.
pub open spec fn is_stage_all_option(a: Seq<char>) -> bool {
    a == "-a"@ || a == "--all"@ || (a.len() > 0 && a[0] == '-' && !is_prefix_of("--"@, a)
        && a.contains('a'))
}

/// Whether an option stages all tracked changes (see `is_stage_all_option`).
pub fn stages_all(a: &String) -> (res: bool)
    ensures
        res == is_stage_all_option(a@),
{
    let c = chars_of(a.as_str());
    string_eq_str(a, "-a") || string_eq_str(a, "--all") || (starts_with_char(c.as_slice(), '-')
        && !starts_with(c.as_slice(), "--") && contains_char(c.as_slice(), 'a'))
}

/// The arguments kept: all, or, when `drop_stage_all`, those that do not
/// stage all tracked changes.
pub open spec fn kept_args(args: Seq<Seq<char>>, drop_stage_all: bool) -> Seq<Seq<char>>
    decreases args.len(),
{
    if args.len() == 0 {
        seq![]
    } else if drop_stage_all && is_stage_all_option(args.last()) {
        kept_args(args.drop_last(), drop_stage_all)
    } else {
        kept_args(args.drop_last(), drop_stage_all).push(args.last())
    }
}

/// Appends the kept arguments (see `kept_args`).
fn push_kept_args(out: &mut Vec<String>, args: &Vec<String>, drop_stage_all: bool)
    ensures
        string_views(final(out)@) == string_views(old(out)@) + kept_args(
            string_views(args@),
            drop_stage_all,
        ),
{
    let ghost out0 = string_views(out@);
    let ghost av = string_views(args@);
    let mut i: usize = 0;
    while i < args.len()
        invariant
            av == string_views(args@),
            i <= av.len(),
            string_views(out@) == out0 + kept_args(av.take(i as int), drop_stage_all),
        decreases args.len() - i,
    {
        proof {
            assert(av.take(i + 1).drop_last() =~= av.take(i as int));
            assert(av.take(i + 1).last() == args@[i as int]@);
        }
        let ghost before = string_views(out@);
        if !(drop_stage_all && stages_all(&args[i])) {
            let s = args[i].clone();
            let ghost sv = s@;
            out.push(s);
            assert(string_views(out@) =~= before.push(sv));
        }
        i = i + 1;
    }
    assert(av.take(i as int) =~= av);
}

/// The arguments of a plain `git commit` (after `git`): `commit`, `-a` when
/// staging all, `-m` and the message when one is given, then the further
/// arguments, without those that stage all when staging all.
pub open spec fn passthrough_commit_argv(
    auto_stage: bool,
    message: Option<Seq<char>>,
    args: Seq<Seq<char>>,
) -> Seq<Seq<char>> {
    seq!["commit"@] + (if auto_stage {
        seq!["-a"@]
    } else {
        seq![]
    }) + match message {
        Some(m) => seq!["-m"@, m],
        None => seq![],
    } + kept_args(args, auto_stage)
}

/// The arguments of a plain `git commit` (see `passthrough_commit_argv`).
pub fn passthrough_commit_args(args: &CommitArgs) -> (res: Vec<String>)
    ensures
        string_views(res@) == passthrough_commit_argv(
            args.auto_stage,
            match args.message {
                Some(m) => Some(m@),
                None => None,
            },
            string_views(args.passthrough_args@),
        ),
{
    let mut v: Vec<String> = Vec::new();
    v.push(String::from_str("commit"));
    if args.auto_stage {
        v.push(String::from_str("-a"));
    }
    match &args.message {
        Some(m) => {
            v.push(String::from_str("-m"));
            v.push(m.clone());
        },
        None => {},
    }
    let ghost head = string_views(v@);
    assert(head =~= seq!["commit"@] + (if args.auto_stage {
        seq!["-a"@]
    } else {
        seq![]
    }) + match args.message {
        Some(m) => seq!["-m"@, m@],
        None => seq![],
    });
    push_kept_args(&mut v, &args.passthrough_args, args.auto_stage);
    v
}

/// The `Debug` rendering of a list of strings (`format!("{:?}", ..)`): the
/// items quoted and escaped, between brackets, separated by `, `. A
/// function of the items alone.
pub uninterp spec fn debug_list_text(items: Seq<Seq<char>>) -> Seq<char>;

/// std's `Debug` for a vector of strings, through `format!`. The contract
/// names the result (see `debug_list_text`); Rust's escaping rules are not
/// stated.
#[verifier::external_body]
fn debug_list(items: &Vec<String>) -> (res: String)
    ensures
        res@ == debug_list_text(string_views(items@)),
{
    format!("{:?}", items)
}

/// The description of a plain commit for messages: its context and the
/// further arguments.
pub open spec fn passthrough_description(context: Seq<char>, args: Seq<Seq<char>>) -> Seq<char> {
    "commit (passthrough "@ + context + ") args: "@ + debug_list_text(args)
}

/// The description of a plain commit (see `passthrough_description`).
pub fn describe_passthrough(context: &String, args: &Vec<String>) -> (res: String)
    ensures
        res@ == passthrough_description(context@, string_views(args@)),
{
    let mut v: Vec<char> = Vec::new();
    extend_str(&mut v, "commit (passthrough ");
    extend_string(&mut v, context);
    extend_str(&mut v, ") args: ");
    extend_string(&mut v, &debug_list(args));
    to_string(&v)
}

/// The error when a plain commit could not be started.
pub fn passthrough_start_error(context: &String, args: &Vec<String>, io_message: String) -> (res: AppError)
    ensures
        res matches AppError::IO(what, err) && what@ == "Failed git "@ + passthrough_description(
            context@,
            string_views(args@),
        ) && err@ == io_message@,
{
    let mut v: Vec<char> = Vec::new();
    extend_str(&mut v, "Failed git ");
    extend_string(&mut v, &describe_passthrough(context, args));
    AppError::IO(to_string(&v), io_message)
}

/// The error when a plain commit failed.
pub fn passthrough_failed_error(context: &String, args: &Vec<String>, code: Option<i32>) -> (res: AppError)
    ensures
        res matches AppError::Git(GitError::PassthroughFailed { command, status_code })
            && command@ == "git "@ + passthrough_description(context@, string_views(args@))
            && status_code == code,
{
    let mut v: Vec<char> = Vec::new();
    extend_str(&mut v, "git ");
    extend_string(&mut v, &describe_passthrough(context, args));
    AppError::Git(GitError::PassthroughFailed { command: to_string(&v), status_code: code })
}

/// The context of a plain commit asked for with `--noai`.
pub fn standard_commit_context() -> (res: String)
    ensures
        res@ == "(standard commit with --noai)"@,
{
    String::from_str("(standard commit with --noai)")
}

/// What to do once the staged diff is known.
pub enum StagedDiffDecision {
    /// Ask the AI for a message, with this user prompt.
    Generate(String),
    /// Make a plain commit with these arguments and this context.
    Passthrough(CommitArgs, String),
    /// Stop with this error.
    Fail(AppError),
}

/// The user prompt for a commit message: the diff, trimmed, between fixed
/// lines.
pub open spec fn commit_user_prompt(diff: Seq<char>) -> Seq<char> {
    "Git diff:\n"@ + trim_seq(diff) + "\nGenerate commit message."@
}

/// What to do once the staged diff is known: with nothing staged, a plain
/// commit when `--allow-empty` is among the further arguments (AI off, no
/// Tree-sitter level, no review, no message, the same staging and further
/// arguments), else a no-staged-changes
/// error; otherwise ask for a message.
pub fn after_staged_diff(args: &CommitArgs, diff: &str) -> (res: StagedDiffDecision)
    ensures
        trim_seq(diff@).len() > 0 ==> (res matches StagedDiffDecision::Generate(p) && p@
            == commit_user_prompt(diff@)),
        trim_seq(diff@).len() == 0 && has_arg(string_views(args.passthrough_args@), "--allow-empty"@)
            ==> (res matches StagedDiffDecision::Passthrough(a, ctx) && !a.ai && a.noai && a.tree_sitter is None
            && !a.review && a.auto_stage == args.auto_stage && a.message is None && string_views(
            a.passthrough_args@,
        ) == string_views(args.passthrough_args@) && ctx@
            == "(AI commit with --allow-empty and no diff)"@),
        trim_seq(diff@).len() == 0 && !has_arg(string_views(args.passthrough_args@), "--allow-empty"@)
            ==> (res matches StagedDiffDecision::Fail(AppError::Git(GitError::NoStagedChanges))),
{
    let c = chars_of(diff);
    if is_blank(c.as_slice()) {
        if contains_arg(args.passthrough_args.as_slice(), "--allow-empty") {
            let mut rest: Vec<String> = Vec::new();
            push_kept_args(&mut rest, &args.passthrough_args, false);
            proof {
                lemma_kept_all(string_views(args.passthrough_args@));
                assert(string_views(rest@) =~= string_views(args.passthrough_args@));
            }
            let a = CommitArgs {
                ai: false,
                noai: true,
                tree_sitter: None,
                auto_stage: args.auto_stage,
                message: None,
                review: false,
                passthrough_args: rest,
            };
            StagedDiffDecision::Passthrough(
                a,
                String::from_str("(AI commit with --allow-empty and no diff)"),
            )
        } else {
            StagedDiffDecision::Fail(AppError::Git(GitError::NoStagedChanges))
        }
    } else {
        let t = trim_chars(c.as_slice());
        let mut v: Vec<char> = Vec::new();
        extend_str(&mut v, "Git diff:\n");
        crate::text::extend_chars(&mut v, t.as_slice());
        extend_str(&mut v, "\nGenerate commit message.");
        StagedDiffDecision::Generate(to_string(&v))
    }
}

proof fn lemma_kept_all(args: Seq<Seq<char>>)
    ensures
        kept_args(args, false) == args,
    decreases args.len(),
{
    if args.len() > 0 {
        lemma_kept_all(args.drop_last());
        assert(args.drop_last().push(args.last()) =~= args);
    }
}

/// The messages asking for a commit message: the configured commit prompt
/// (or an empty one) and the user prompt.
pub fn commit_message_request(prompt: Option<&String>, user_prompt: String) -> (res: Vec<ChatMessage>)
    ensures
        message_views(res@) == request_messages(
            prompt_or_empty(
                match prompt {
                    Some(p) => Some(p@),
                    None => None,
                },
            ),
            user_prompt@,
        ),
{
    request(prompt_text(prompt), user_prompt)
}

/// The commit message from the AI's first choice (none reads as empty):
/// without its `<think>` blocks and trimmed; an empty result is an error.
pub fn final_commit_message(first_choice: Option<&String>) -> (res: Result<String, AppError>)
    ensures
        ({
            let raw = match first_choice {
                Some(c) => c@,
                None => Seq::<char>::empty(),
            };
            let m = trim_seq(without_think_blocks(raw));
            &&& m.len() == 0 ==> (res matches Err(AppError::AI(AIError::EmptyMessage)))
            &&& m.len() > 0 ==> (res matches Ok(s) && s@ == m)
        }),
{
    let cleaned = match first_choice {
        Some(c) => clean_ai_output(c.as_str()),
        None => {
            let empty = String::new();
            clean_ai_output(empty.as_str())
        },
    };
    let c = chars_of(cleaned.as_str());
    let t = trim_chars(c.as_slice());
    if t.len() == 0 {
        Err(AppError::AI(AIError::EmptyMessage))
    } else {
        Ok(to_string(&t))
    }
}

/// The arguments of the commit made with a generated message (after
/// `git`): `commit`, `-m` and the message, then the further arguments
/// without those that stage all tracked changes.
pub fn ai_commit_args(message: &String, passthrough_args: &Vec<String>) -> (res: Vec<String>)
    ensures
        string_views(res@) == seq!["commit"@, "-m"@, message@] + kept_args(
            string_views(passthrough_args@),
            true,
        ),
{
    let mut v: Vec<String> = Vec::new();
    v.push(String::from_str("commit"));
    v.push(String::from_str("-m"));
    v.push(message.clone());
    assert(string_views(v@) =~= seq!["commit"@, "-m"@, message@]);
    push_kept_args(&mut v, passthrough_args, true);
    v
}

} // verus!
