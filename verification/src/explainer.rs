//! The decisions around AI explanations of Git commands, their output and
//! their errors: when no request is needed, which messages a request sends,
//! how a reply is read, and how an explanation is presented.
//!
//! Sending a request is the caller's part: a `ExplainPlan::Ask` lists the
//! messages to send, and the reply goes back through `interpret_ai_response`
//! and the formatting functions here.

use vstd::prelude::*;
use vstd::string::StringExecFns;
use crate::ai_utils::{
    clean_ai_output, without_think_blocks, ChatMessage, OpenAIChatCompletionResponse,
};
use crate::errors::AIError;
use crate::text::{
    chars_of, contains_seq, contains_str, extend_str, extend_string, is_blank, join_seqs,
    to_string, trim_seq,
};

verus! {

/// The abstract value of a chat message.
pub struct ChatMessageModel {
    pub role: Seq<char>,
    pub content: Seq<char>,
}

/// The abstract value of a chat message.
pub open spec fn message_view(m: ChatMessage) -> ChatMessageModel {
    ChatMessageModel { role: m.role@, content: m.content@ }
}

/// The views of a sequence of messages.
pub open spec fn message_views(v: Seq<ChatMessage>) -> Seq<ChatMessageModel> {
    v.map_values(|m: ChatMessage| message_view(m))
}

/// What to do for an explanation: answer at once, or ask the AI.
pub enum ExplainPlan {
    /// No request is needed; this is the answer.
    Answer(String),
    /// Ask the AI with these messages, in order.
    Ask(Vec<ChatMessage>),
}

/// The abstract value of a plan.
pub enum ExplainPlanModel {
    Answer(Seq<char>),
    Ask(Seq<ChatMessageModel>),
}

impl View for ExplainPlan {
    type V = ExplainPlanModel;

    open spec fn view(&self) -> ExplainPlanModel {
        match self {
            ExplainPlan::Answer(s) => ExplainPlanModel::Answer(s@),
            ExplainPlan::Ask(ms) => ExplainPlanModel::Ask(message_views(ms@)),
        }
    }
}

/// The messages of a request: the system prompt, then the user's message.
pub open spec fn request_messages(system: Seq<char>, user: Seq<char>) -> Seq<ChatMessageModel> {
    seq![
        ChatMessageModel { role: "system"@, content: system },
        ChatMessageModel { role: "user"@, content: user },
    ]
}

/// The system prompt when configured, else empty.
pub open spec fn prompt_or_empty(prompt: Option<Seq<char>>) -> Seq<char> {
    match prompt {
        Some(p) => p,
        None => seq![],
    }
}

/// The messages of a request: the system prompt, then the user's message.
pub fn request(system: String, user: String) -> (res: Vec<ChatMessage>)
    ensures
        message_views(res@) == request_messages(system@, user@),
{
    let mut v: Vec<ChatMessage> = Vec::new();
    v.push(ChatMessage { role: String::from_str("system"), content: system });
    v.push(ChatMessage { role: String::from_str("user"), content: user });
    assert(message_views(v@) =~= request_messages(system@, user@));
    v
}

/// The configured prompt, or an empty one.
pub fn prompt_text(prompt: Option<&String>) -> (res: String)
    ensures
        res@ == prompt_or_empty(
            match prompt {
                Some(p) => Some(p@),
                None => None,
            },
        ),
{
    match prompt {
        Some(p) => p.clone(),
        None => String::new(),
    }
}

// ---------------------------------------------------------------------------
// Reading a reply
// ---------------------------------------------------------------------------

/// What a chat-completion reply yields: the cleaned content of its first
/// choice; an empty-message error when that content is blank; a no-choice
/// error when there is no choice.
pub open spec fn reply_outcome(first: Option<Seq<char>>) -> Result<Seq<char>, AIError> {
    match first {
        None => Err(AIError::NoChoiceInResponse),
        Some(c) => if trim_seq(c).len() == 0 {
            Err(AIError::EmptyMessage)
        } else {
            Ok(without_think_blocks(c))
        },
    }
}

/// Reads a chat-completion reply (see `reply_outcome`).
pub fn interpret_ai_response(response: &OpenAIChatCompletionResponse) -> (res: Result<String, AIError>)
    ensures
        response.choices@.len() == 0 ==> res matches Err(AIError::NoChoiceInResponse),
        response.choices@.len() > 0 ==> {
            let c = response.choices@[0].message.content@;
            if trim_seq(c).len() == 0 {
                res matches Err(AIError::EmptyMessage)
            } else {
                res matches Ok(s) && s@ == without_think_blocks(c)
            }
        },
{
    if response.choices.len() == 0 {
        return Err(AIError::NoChoiceInResponse);
    }
    let content = &response.choices[0].message.content;
    let c = chars_of(content.as_str());
    if is_blank(c.as_slice()) {
        Err(AIError::EmptyMessage)
    } else {
        Ok(clean_ai_output(content.as_str()))
    }
}

// ---------------------------------------------------------------------------
// Explaining a command's output
// ---------------------------------------------------------------------------

/// The answer when a command printed nothing.
pub open spec fn no_output_answer() -> Seq<char> {
    "该命令没有产生输出供 AI 解释。这可能是一个成功时不打印到标准输出/标准错误的命令，或者需要特定条件才能产生输出。"@
}

/// The output holds the help of this tool as well as Git's.
pub open spec fn holds_gitie_help(output: Seq<char>) -> bool {
    contains_seq(output, "gitie: Git with AI assistance"@) || contains_seq(output, "Gitie 特有命令"@)
}

/// The instructions added to the system prompt for this tool's help.
pub open spec fn gitie_help_instructions() -> Seq<char> {
    "\n\n此帮助内容包含标准 Git 命令和 Gitie 特有命令。请分别解释这两部分：\n1. Gitie 特有命令：详细解释这些 AI 增强的命令如何工作以及它们的参数\n2. 标准 Git 命令：提供简洁明了的解释\n始终关注帮助用户理解如何使用 Gitie 的 AI 功能来提高生产力"@
}

/// The plan for explaining a command's output: a fixed answer for blank
/// output; otherwise a request whose system prompt is the configured
/// explanation prompt (with instructions for this tool's help when the
/// output holds it) and whose user message asks for the help to be
/// explained.
pub open spec fn output_plan(prompt: Option<Seq<char>>, output: Seq<char>) -> ExplainPlanModel {
    if trim_seq(output).len() == 0 {
        ExplainPlanModel::Answer(no_output_answer())
    } else if holds_gitie_help(output) {
        ExplainPlanModel::Ask(
            request_messages(
                prompt_or_empty(prompt) + gitie_help_instructions(),
                "请解释以下"@ + "Gitie 和 Git "@ + "帮助信息，重点说明每个命令的作用和用法：\n\n"@ + output,
            ),
        )
    } else {
        ExplainPlanModel::Ask(
            request_messages(
                prompt_or_empty(prompt),
                "请解释以下"@ + "Git "@ + "帮助信息，重点说明每个命令的作用和用法：\n\n"@ + output,
            ),
        )
    }
}

/// Whether the output holds the help of this tool (see `holds_gitie_help`).
pub fn contains_gitie_help(output: &str) -> (res: bool)
    ensures
        res == holds_gitie_help(output@),
{
    let c = chars_of(output);
    contains_str(c.as_slice(), "gitie: Git with AI assistance") || contains_str(
        c.as_slice(),
        "Gitie 特有命令",
    )
}

/// The plan for explaining a command's output (see `output_plan`), given
/// the configured explanation prompt.
pub fn plan_output_explanation(prompt: Option<&String>, command_output: &str) -> (res: ExplainPlan)
    ensures
        res@ == output_plan(
            match prompt {
                Some(p) => Some(p@),
                None => None,
            },
            command_output@,
        ),
{
    let c = chars_of(command_output);
    if is_blank(c.as_slice()) {
        return ExplainPlan::Answer(
            String::from_str(
                "该命令没有产生输出供 AI 解释。这可能是一个成功时不打印到标准输出/标准错误的命令，或者需要特定条件才能产生输出。",
            ),
        );
    }
    let gitie = contains_gitie_help(command_output);
    let mut system: Vec<char> = chars_of(prompt_text(prompt).as_str());
    if gitie {
        extend_str(
            &mut system,
            "\n\n此帮助内容包含标准 Git 命令和 Gitie 特有命令。请分别解释这两部分：\n1. Gitie 特有命令：详细解释这些 AI 增强的命令如何工作以及它们的参数\n2. 标准 Git 命令：提供简洁明了的解释\n始终关注帮助用户理解如何使用 Gitie 的 AI 功能来提高生产力",
        );
    }
    let mut user: Vec<char> = Vec::new();
    extend_str(&mut user, "请解释以下");
    if gitie {
        extend_str(&mut user, "Gitie 和 Git ");
    } else {
        extend_str(&mut user, "Git ");
    }
    extend_str(&mut user, "帮助信息，重点说明每个命令的作用和用法：\n\n");
    extend_str(&mut user, command_output);
    ExplainPlan::Ask(request(to_string(&system), to_string(&user)))
}

/// The presentation of an explanation of a command's help output.
pub open spec fn output_explanation_text(output: Seq<char>, explanation: Seq<char>) -> Seq<char> {
    (if holds_gitie_help(output) {
        "# Gitie 命令帮助"@
    } else {
        "# Git 命令帮助"@
    }) + "\n\n## AI 解释\n\n"@ + explanation + "\n\n## 原始帮助输出\n\n```text\n"@ + output
        + "\n```"@
}

/// Presents the AI's explanation of a command's help output with the
/// original output.
pub fn format_output_explanation(command_output: &str, ai_explanation: &String) -> (res: String)
    ensures
        res@ == output_explanation_text(command_output@, ai_explanation@),
{
    let mut v: Vec<char> = Vec::new();
    if contains_gitie_help(command_output) {
        extend_str(&mut v, "# Gitie 命令帮助");
    } else {
        extend_str(&mut v, "# Git 命令帮助");
    }
    extend_str(&mut v, "\n\n## AI 解释\n\n");
    extend_string(&mut v, ai_explanation);
    extend_str(&mut v, "\n\n## 原始帮助输出\n\n```text\n");
    extend_str(&mut v, command_output);
    extend_str(&mut v, "\n```");
    to_string(&v)
}

// ---------------------------------------------------------------------------
// Explaining a command
// ---------------------------------------------------------------------------

/// The plan for explaining a command given as its parts: a fixed answer
/// when there are none; otherwise a request with the configured explanation
/// prompt and `git` followed by the parts, separated by spaces.
pub open spec fn command_plan(prompt: Option<Seq<char>>, parts: Seq<Seq<char>>) -> ExplainPlanModel {
    if parts.len() == 0 {
        ExplainPlanModel::Answer("没有提供命令部分供 AI 解释"@)
    } else {
        ExplainPlanModel::Ask(
            request_messages(prompt_or_empty(prompt), "git "@ + join_seqs(parts, " "@)),
        )
    }
}

/// The plan for explaining a command (see `command_plan`).
pub fn plan_command_explanation(prompt: Option<&String>, command_parts: &Vec<String>) -> (res: ExplainPlan)
    ensures
        res@ == command_plan(
            match prompt {
                Some(p) => Some(p@),
                None => None,
            },
            crate::text::string_views(command_parts@),
        ),
{
    if command_parts.len() == 0 {
        return ExplainPlan::Answer(String::from_str("没有提供命令部分供 AI 解释"));
    }
    let mut parts: Vec<Vec<char>> = Vec::new();
    let mut i: usize = 0;
    while i < command_parts.len()
        invariant
            i <= command_parts@.len(),
            crate::text::views(parts@) == crate::text::string_views(command_parts@).take(i as int),
        decreases command_parts.len() - i,
    {
        let ghost before = crate::text::views(parts@);
        let p = chars_of(command_parts[i].as_str());
        let ghost pv = p@;
        parts.push(p);
        assert(crate::text::views(parts@) =~= before.push(pv));
        assert(crate::text::views(parts@) =~= crate::text::string_views(command_parts@).take(i + 1));
        i = i + 1;
    }
    assert(crate::text::string_views(command_parts@).take(i as int) =~= crate::text::string_views(
        command_parts@,
    ));
    let mut user: Vec<char> = Vec::new();
    extend_str(&mut user, "git ");
    let joined = crate::text::join_parts(&parts, " ");
    crate::text::extend_chars(&mut user, joined.as_slice());
    ExplainPlan::Ask(request(prompt_text(prompt), to_string(&user)))
}

// ---------------------------------------------------------------------------
// Explaining an error
// ---------------------------------------------------------------------------

/// The answer when a failed command printed no error.
pub open spec fn no_error_output_answer() -> Seq<char> {
    "Git 命令未产生错误输出，但执行失败。这可能是权限问题或者其它系统级别的错误。"@
}

/// The plan for explaining an error: a fixed answer for blank error output;
/// otherwise a request with the configured expert prompt and a message
/// giving the command and its error output.
pub open spec fn error_plan(prompt: Option<Seq<char>>, error_output: Seq<char>, command: Seq<char>) -> ExplainPlanModel {
    if trim_seq(error_output).len() == 0 {
        ExplainPlanModel::Answer(no_error_output_answer())
    } else {
        ExplainPlanModel::Ask(
            request_messages(
                prompt_or_empty(prompt),
                "在执行以下 Git 命令时遇到错误：\n\n命令: "@ + command + "\n\n错误输出:\n"@
                    + error_output + "\n\n请分析这个错误，解释原因并提供解决方案。"@,
            ),
        )
    }
}

/// The plan for explaining an error (see `error_plan`), given the
/// configured expert prompt.
pub fn plan_error_explanation(prompt: Option<&String>, error_output: &str, command: &str) -> (res: ExplainPlan)
    ensures
        res@ == error_plan(
            match prompt {
                Some(p) => Some(p@),
                None => None,
            },
            error_output@,
            command@,
        ),
{
    let c = chars_of(error_output);
    if is_blank(c.as_slice()) {
        return ExplainPlan::Answer(
            String::from_str(
                "Git 命令未产生错误输出，但执行失败。这可能是权限问题或者其它系统级别的错误。",
            ),
        );
    }
    let mut user: Vec<char> = Vec::new();
    extend_str(&mut user, "在执行以下 Git 命令时遇到错误：\n\n命令: ");
    extend_str(&mut user, command);
    extend_str(&mut user, "\n\n错误输出:\n");
    extend_str(&mut user, error_output);
    extend_str(&mut user, "\n\n请分析这个错误，解释原因并提供解决方案。");
    ExplainPlan::Ask(request(prompt_text(prompt), to_string(&user)))
}

/// The presentation of an explained error: the original error, then the
/// AI's help.
pub open spec fn error_explanation_text(error_output: Seq<char>, explanation: Seq<char>) -> Seq<char> {
    "【原始 Git 错误】\n"@ + error_output + "\n\n【Gitie AI 帮助】\n"@ + explanation
}

/// Presents the AI's explanation of an error with the original error.
pub fn format_error_explanation(error_output: &str, ai_explanation: &str) -> (res: String)
    ensures
        res@ == error_explanation_text(error_output@, ai_explanation@),
{
    let mut v: Vec<char> = Vec::new();
    extend_str(&mut v, "【原始 Git 错误】\n");
    extend_str(&mut v, error_output);
    extend_str(&mut v, "\n\n【Gitie AI 帮助】\n");
    extend_str(&mut v, ai_explanation);
    to_string(&v)
}

} // verus!
