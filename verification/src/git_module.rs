//! Running Git: the captured output of a command, and the decisions taken
//! on it. Starting the `git` process is the caller's part; it reports what
//! came back as a `CommandOutput`.

use vstd::prelude::*;
use colored::Colorize;
use vstd::string::StringExecFns;
use crate::errors::{AppError, GitError};
use crate::text::{
    chars_of, contains_seq, extend_chars, extend_str, extend_string, is_blank, join_parts,
    join_seqs, lines_of, push_i32_decimal, split_lines, string_views, to_string, trim_chars,
    trim_seq, views,
};

verus! {

/// How a process ended: whether it succeeded, and its exit code when it
/// exited normally.
#[derive(Debug, Clone, Copy, PartialEq, Eq, Structural)]
pub struct ExitInfo {
    pub success: bool,
    pub code: Option<i32>,
}

/// The captured output of a command.
#[derive(Debug)]
pub struct CommandOutput {
    /// Standard output, decoded as UTF-8 with replacement.
    pub stdout: String,
    /// Standard error, decoded as UTF-8 with replacement.
    pub stderr: String,
    /// How the command ended.
    pub status: ExitInfo,
}

/// The abstract value of a command's output.
pub struct CommandOutputModel {
    pub stdout: Seq<char>,
    pub stderr: Seq<char>,
    pub status: ExitInfo,
}

impl View for CommandOutput {
    type V = CommandOutputModel;

    open spec fn view(&self) -> CommandOutputModel {
        CommandOutputModel { stdout: self.stdout@, stderr: self.stderr@, status: self.status }
    }
}

/// The label that precedes each error line in a combined output: `ERROR`
/// and a newline, plain or in red.
pub open spec fn is_error_label(label: Seq<char>) -> bool {
    label == "ERROR\n"@ || label == "\u{1b}[31m"@ + "ERROR\n"@ + "\u{1b}[0m"@
}

/// colored's `"ERROR\n".red()` rendered with `format!`: the text in red
/// (the escape for red, the text, the reset escape) when colouring is
/// enabled, which depends on the environment and the terminal, and the
/// plain text otherwise.
#[verifier::external_body]
fn error_label() -> (res: String)
    ensures
        is_error_label(res@),
{
    format!("{}", "ERROR\n".red())
}

/// The error lines of a combined output, each after the label.
pub open spec fn labelled_lines(lines: Seq<Seq<char>>, label: Seq<char>) -> Seq<Seq<char>> {
    lines.map_values(|l: Seq<char>| label + ": "@ + l)
}

/// The combined output: standard output, then (after a newline when both
/// are present) each line of standard error after the label, the lines
/// separated by newlines.
pub open spec fn combined_text(stdout: Seq<char>, stderr: Seq<char>, label: Seq<char>) -> Seq<char> {
    if stderr.len() == 0 {
        stdout
    } else {
        stdout + (if stdout.len() > 0 {
            "\n"@
        } else {
            seq![]
        }) + join_seqs(labelled_lines(lines_of(stderr), label), "\n"@)
    }
}

/// The display of a command's output for the user: its standard output and
/// standard error under headings, and the exit code (-1 when unknown) of a
/// failed command.
pub open spec fn display_text(o: CommandOutputModel) -> Seq<char> {
    (if o.stdout.len() > 0 {
        "Output:\n"@ + o.stdout + "\n"@
    } else {
        seq![]
    }) + (if o.stderr.len() > 0 {
        "Errors:\n"@ + o.stderr + "\n"@
    } else {
        seq![]
    }) + (if !o.status.success {
        "Exit code: "@ + crate::text::int_decimal(
            match o.status.code {
                Some(c) => c as int,
                None => -1,
            },
        ) + "\n"@
    } else {
        seq![]
    })
}

impl CommandOutput {
    /// Whether the command succeeded.
    pub fn is_success(&self) -> (res: bool)
        ensures
            res == self.status.success,
    {
        self.status.success
    }

    /// The command's exit code, if it exited normally.
    pub fn exit_code(&self) -> (res: Option<i32>)
        ensures
            res == self.status.code,
    {
        self.status.code
    }

    /// Whether both outputs are empty.
    pub fn is_empty(&self) -> (res: bool)
        ensures
            res == (self.stdout@.len() == 0 && self.stderr@.len() == 0),
    {
        self.stdout.as_str().is_empty() && self.stderr.as_str().is_empty()
    }

    /// The lines of the standard output.
    pub fn stdout_lines(&self) -> (res: Vec<String>)
        ensures
            string_views(res@) == lines_of(self.stdout@),
    {
        let c = chars_of(self.stdout.as_str());
        let lines = split_lines(c.as_slice());
        let mut res: Vec<String> = Vec::new();
        let mut i: usize = 0;
        while i < lines.len()
            invariant
                views(lines@) == lines_of(self.stdout@),
                i <= lines@.len(),
                string_views(res@) == views(lines@).take(i as int),
            decreases lines.len() - i,
        {
            let ghost before = string_views(res@);
            let s = to_string(&lines[i]);
            let ghost sv = s@;
            res.push(s);
            assert(string_views(res@) =~= before.push(sv));
            assert(string_views(res@) =~= views(lines@).take(i + 1));
            i = i + 1;
        }
        assert(views(lines@).take(i as int) =~= views(lines@));
        res
    }

    /// The standard output followed by the labelled lines of the standard
    /// error (see `combined_text`); the label is plain or red.
    pub fn combined_output(&self) -> (res: String)
        ensures
            exists|label: Seq<char>|
                is_error_label(label) && res@ == combined_text(self.stdout@, self.stderr@, label),
    {
        let label = error_label();
        self.combined_with_label(&label)
    }

    /// The standard output followed by the lines of the standard error, each
    /// after the given label (see `combined_text`).
    pub fn combined_with_label(&self, label: &String) -> (res: String)
        ensures
            res@ == combined_text(self.stdout@, self.stderr@, label@),
    {
        let mut v = chars_of(self.stdout.as_str());
        if !self.stderr.as_str().is_empty() {
            let ghost v_out = v@;
            if !self.stdout.as_str().is_empty() {
                extend_str(&mut v, "\n");
            }
            let e = chars_of(self.stderr.as_str());
            let lines = split_lines(e.as_slice());
            let ghost lv = views(lines@);
            assert(lv == lines_of(self.stderr@));
            let mut parts: Vec<Vec<char>> = Vec::new();
            let mut i: usize = 0;
            while i < lines.len()
                invariant
                    lv == views(lines@),
                    i <= lines@.len(),
                    views(parts@) == labelled_lines(lv, label@).take(i as int),
                decreases lines.len() - i,
            {
                let ghost before = views(parts@);
                let mut p = chars_of(label.as_str());
                extend_str(&mut p, ": ");
                extend_chars(&mut p, lines[i].as_slice());
                let ghost pv = p@;
                parts.push(p);
                assert(views(parts@) =~= before.push(pv));
                assert(views(parts@) =~= labelled_lines(lv, label@).take(i + 1));
                i = i + 1;
            }
            assert(labelled_lines(lv, label@).take(i as int) =~= labelled_lines(lv, label@));
            let ghost v0 = v@;
            let j = join_parts(&parts, "\n");
            extend_chars(&mut v, j.as_slice());
            assert(v@ =~= combined_text(self.stdout@, self.stderr@, label@));
        }
        to_string(&v)
    }

    /// The display of the output for the user (see `display_text`).
    pub fn formatted_display(&self) -> (res: String)
        ensures
            res@ == display_text(self@),
    {
        let mut v: Vec<char> = Vec::new();
        if !self.stdout.as_str().is_empty() {
            extend_str(&mut v, "Output:\n");
            extend_string(&mut v, &self.stdout);
            extend_str(&mut v, "\n");
        }
        let ghost v1 = v@;
        if !self.stderr.as_str().is_empty() {
            extend_str(&mut v, "Errors:\n");
            extend_string(&mut v, &self.stderr);
            extend_str(&mut v, "\n");
        }
        let ghost v2 = v@;
        if !self.status.success {
            extend_str(&mut v, "Exit code: ");
            let code: i32 = match self.status.code {
                Some(c) => c,
                None => -1,
            };
            push_i32_decimal(&mut v, code);
            extend_str(&mut v, "\n");
        }
        assert(v@ =~= display_text(self@));
        to_string(&v)
    }
}

// ---------------------------------------------------------------------------
// Decisions on Git commands
// ---------------------------------------------------------------------------

/// The arguments `git` is run with: the given ones, or `--help` when there
/// are none.
pub open spec fn command_to_run(args: Seq<Seq<char>>) -> Seq<Seq<char>> {
    if args.len() == 0 {
        seq!["--help"@]
    } else {
        args
    }
}

/// The arguments `git` is run with (see `command_to_run`).
pub fn git_command_args(args: &Vec<String>) -> (res: Vec<String>)
    ensures
        string_views(res@) == command_to_run(string_views(args@)),
{
    if args.len() == 0 {
        let v = vec![String::from_str("--help")];
        assert(string_views(v@) =~= seq!["--help"@]);
        v
    } else {
        let mut v: Vec<String> = Vec::new();
        let mut i: usize = 0;
        while i < args.len()
            invariant
                i <= args@.len(),
                string_views(v@) == string_views(args@).take(i as int),
            decreases args.len() - i,
        {
            let ghost before = string_views(v@);
            let s = args[i].clone();
            let ghost sv = s@;
            v.push(s);
            assert(string_views(v@) =~= before.push(sv));
            assert(string_views(v@) =~= string_views(args@).take(i + 1));
            i = i + 1;
        }
        assert(string_views(args@).take(i as int) =~= string_views(args@));
        v
    }
}

/// The arguments joined by spaces.
pub fn join_args(args: &Vec<String>) -> (res: String)
    ensures
        res@ == join_seqs(string_views(args@), " "@),
{
    let mut parts: Vec<Vec<char>> = Vec::new();
    let mut i: usize = 0;
    while i < args.len()
        invariant
            i <= args@.len(),
            views(parts@) == string_views(args@).take(i as int),
        decreases args.len() - i,
    {
        let ghost before = views(parts@);
        let p = chars_of(args[i].as_str());
        let ghost pv = p@;
        parts.push(p);
        assert(views(parts@) =~= before.push(pv));
        assert(views(parts@) =~= string_views(args@).take(i + 1));
        i = i + 1;
    }
    assert(string_views(args@).take(i as int) =~= string_views(args@));
    let j = join_parts(&parts, " ");
    to_string(&j)
}

/// Whether the working directory is inside a work tree, from the result of
/// `git rev-parse --is-inside-work-tree`: the command succeeded and printed
/// `true` (surrounding white space aside); a failure to run it is passed on.
pub fn is_in_git_repository(result: Result<CommandOutput, AppError>) -> (res: Result<bool, AppError>)
    ensures
        match result {
            Ok(o) => res == Ok::<bool, AppError>(o.status.success && trim_seq(o.stdout@) == "true"@),
            Err(e) => res == Err::<bool, AppError>(e),
        },
{
    match result {
        Ok(output) => {
            let c = chars_of(output.stdout.as_str());
            let t = trim_chars(c.as_slice());
            Ok(output.is_success() && crate::text::chars_eq_str(t.as_slice(), "true"))
        },
        Err(e) => Err(e),
    }
}

/// The outcome of running `git` with the given arguments on the terminal,
/// from the captured result: a failure to run it is passed on; a command
/// that did not succeed is a passthrough failure naming `git: ` and the
/// arguments (as given) joined by spaces.
pub fn passthrough_to_git(args: &Vec<String>, result: Result<CommandOutput, AppError>) -> (res: Result<(), AppError>)
    ensures
        match result {
            Err(e) => res == Err::<(), AppError>(e),
            Ok(o) => if o.status.success {
                res is Ok
            } else {
                res matches Err(AppError::Git(GitError::PassthroughFailed { command, status_code }))
                    && command@ == "git: "@ + join_seqs(string_views(args@), " "@) && status_code
                    == o.status.code
            },
        },
{
    match result {
        Err(e) => Err(e),
        Ok(output) => {
            if !output.status.success {
                let mut v: Vec<char> = Vec::new();
                extend_str(&mut v, "git: ");
                extend_string(&mut v, &join_args(args));
                Err(
                    AppError::Git(
                        GitError::PassthroughFailed {
                            command: to_string(&v),
                            status_code: output.status.code,
                        },
                    ),
                )
            } else {
                Ok(())
            }
        },
    }
}

/// Whether a passthrough prints the captured output: always without error
/// handling, and with it only when the command succeeded.
pub fn should_echo_output(handle_error: bool, status: ExitInfo) -> (res: bool)
    ensures
        res == (!handle_error || status.success),
{
    !handle_error || status.success
}

/// The outcome of a passthrough with optional error handling, from the
/// output of running `git` with `command_to_run(args)`: without error
/// handling a failed command is a passthrough failure naming `git: ` and the
/// arguments run, joined by spaces; otherwise the output is returned.
pub fn passthrough_outcome(args: &Vec<String>, handle_error: bool, output: CommandOutput) -> (res: Result<CommandOutput, AppError>)
    ensures
        !output.status.success && !handle_error ==> (res matches Err(
            AppError::Git(GitError::PassthroughFailed { command, status_code }),
        ) && command@ == "git: "@ + join_seqs(command_to_run(string_views(args@)), " "@)
            && status_code == output.status.code),
        output.status.success || handle_error ==> (res matches Ok(o) && o@ == output@),
{
    if !output.status.success && !handle_error {
        let run = git_command_args(args);
        let mut v: Vec<char> = Vec::new();
        extend_str(&mut v, "git: ");
        extend_string(&mut v, &join_args(&run));
        Err(
            AppError::Git(
                GitError::PassthroughFailed { command: to_string(&v), status_code: output.status.code },
            ),
        )
    } else {
        Ok(output)
    }
}

/// The error for a command that failed, from its captured output.
pub fn map_output_to_git_command_error(cmd_str: &str, output: CommandOutput) -> (res: GitError)
    ensures
        res matches GitError::CommandFailed { command, status_code, stdout, stderr } && command@
            == cmd_str@ && status_code == output.status.code && stdout@ == output.stdout@
            && stderr@ == output.stderr@,
{
    GitError::CommandFailed {
        command: String::from_str(cmd_str),
        status_code: output.status.code,
        stdout: output.stdout,
        stderr: output.stderr,
    }
}

/// The error for a command that failed, from its captured output and its
/// exit status, given separately: the status code is the status's.
pub fn map_command_error(cmd_str: &str, output: CommandOutput, status: ExitInfo) -> (res: GitError)
    ensures
        res matches GitError::CommandFailed { command, status_code, stdout, stderr } && command@
            == cmd_str@ && status_code == status.code && stdout@ == output.stdout@ && stderr@
            == output.stderr@,
{
    GitError::CommandFailed {
        command: String::from_str(cmd_str),
        status_code: status.code,
        stdout: output.stdout,
        stderr: output.stderr,
    }
}

} // verus!
