//! The chat-completion message model and the cleaning of AI output.

use vstd::prelude::*;
use crate::text::{first_occurrence_from, lemma_first_occurrence_bounds, occurs_at};

verus! {

/// A chat message with a role and content, in requests and responses.
#[derive(Debug, Clone)]
pub struct ChatMessage {
    pub role: String,
    pub content: String,
}

/// One choice of a chat-completion response.
#[derive(Debug, Clone)]
pub struct OpenAIChoice {
    pub index: u32,
    pub message: ChatMessage,
    pub finish_reason: String,
}

/// Token usage of a chat-completion response.
#[derive(Debug, Clone, Copy)]
pub struct OpenAIUsage {
    pub prompt_tokens: u32,
    pub completion_tokens: u32,
    pub total_tokens: u32,
}

/// A whole chat-completion response.
#[derive(Debug, Clone)]
pub struct OpenAIChatCompletionResponse {
    pub id: String,
    pub object: String,
    /// A UNIX timestamp.
    pub created: i64,
    pub model: String,
    pub system_fingerprint: Option<String>,
    pub choices: Vec<OpenAIChoice>,
    pub usage: OpenAIUsage,
}

/// `s` with every `<think>...</think>` block removed, matching as the regular
/// expression `(?s)<think>.*?</think>` does: from the left, each block runs
/// from a `<think>` to the first `</think>` after it, and the search goes on
/// after the block. Text without a complete block stays as it is.
pub open spec fn without_think_blocks(s: Seq<char>) -> Seq<char>
    decreases s.len(),
{
    let i = first_occurrence_from(s, "<think>"@, 0);
    if i < 0 {
        s
    } else {
        let j = first_occurrence_from(s, "</think>"@, i + "<think>"@.len());
        if j < 0 {
            s
        } else {
            proof {
                lemma_first_occurrence_bounds(s, "</think>"@, i + "<think>"@.len());
                reveal_strlit("</think>");
            }
            s.subrange(0, i) + without_think_blocks(s.subrange(j + "</think>"@.len(), s.len() as int))
        }
    }
}

/// `regex` crate: `Regex::new(r"(?s)<think>.*?</think>")` and `replace_all`
/// with the empty replacement. The contract claims that the result is the
/// text with the blocks that this lazy, dot-matches-newline pattern matches
/// removed, as `without_think_blocks` spells out.
#[verifier::external_body]
fn regex_remove_think_blocks(text: &str) -> (res: String)
    ensures
        res@ == without_think_blocks(text@),
{
    regex::Regex::new(r"(?s)<think>.*?</think>").unwrap().replace_all(text, "").into_owned()
}

/// Removes `<think>...</think>` blocks, and their content, from AI output.
/// The surrounding text, white space included, is kept as it is.
pub fn clean_ai_output(text: &str) -> (res: String)
    ensures
        res@ == without_think_blocks(text@),
{
    regex_remove_think_blocks(text)
}

/// Law: text without a `<think>` tag comes back unchanged.
pub proof fn law_clean_keeps_text_without_tags(s: Seq<char>)
    requires
        forall|i: int| !occurs_at(s, "<think>"@, i),
    ensures
        without_think_blocks(s) == s,
{
    lemma_first_occurrence_bounds(s, "<think>"@, 0);
}

/// Law: cleaning never makes the text longer.
pub proof fn law_clean_never_grows(s: Seq<char>)
    ensures
        without_think_blocks(s).len() <= s.len(),
    decreases s.len(),
{
    let i = first_occurrence_from(s, "<think>"@, 0);
    lemma_first_occurrence_bounds(s, "<think>"@, 0);
    if i >= 0 {
        let k = i + "<think>"@.len();
        let j = first_occurrence_from(s, "</think>"@, k);
        lemma_first_occurrence_bounds(s, "</think>"@, k);
        if j >= 0 {
            reveal_strlit("</think>");
            reveal_strlit("<think>");
            let rest = s.subrange(j + "</think>"@.len(), s.len() as int);
            law_clean_never_grows(rest);
        }
    }
}

} // verus!
