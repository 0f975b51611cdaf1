//! Token-budget estimation: how many tokens of a model's context window are
//! left for the response once the prompt is accounted for.

use vstd::prelude::*;

verus! {

/// Minimum number of response tokens that must remain inside the model's
/// context window for a request to be worth sending at all.
pub const COMPLETION_TOKEN_LIMIT: usize = 100;

/// A request is sent only when at least `COMPLETION_TOKEN_LIMIT` tokens of
/// the context window are left for the response.
pub fn budget_allows_request(remaining: usize) -> (r: bool)
    ensures
        r == (remaining >= COMPLETION_TOKEN_LIMIT),
{
    remaining >= COMPLETION_TOKEN_LIMIT
}

/// What tiktoken_rs reports for a legacy completion: the model's context
/// window minus the token count of the prompt (never below zero), or `None`
/// when the model has no known tokenizer or context-window mapping. The
/// count is a function of the model identifier and the prompt alone.
pub uninterp spec fn text_budget(model: Seq<char>, prompt: Seq<char>) -> Option<usize>;

/// What tiktoken_rs reports for a chat completion made of one user message
/// holding the prompt: the model's context window minus the token count of
/// the serialized message list (per-message role and formatting overhead
/// included), or `None` when the model is unknown or its tokenizer does not
/// support chat counting.
pub uninterp spec fn chat_budget(model: Seq<char>, prompt: Seq<char>) -> Option<usize>;

/// Relies on tiktoken_rs::get_text_completion_max_tokens: computes
/// `context_size - prompt_tokens` for the model, failing only when the model
/// has no known context size or tokenizer.
#[verifier::external_body]
pub(crate) fn text_completion_max_tokens(model: &str, prompt: &str) -> (r: Option<usize>)
    ensures
        r == text_budget(model@, prompt@),
{
    tiktoken_rs::get_text_completion_max_tokens(model, prompt).ok()
}

/// Relies on tiktoken_rs::get_chat_completion_max_tokens: computes
/// `context_size - message_tokens` for a single user-role message holding the
/// prompt, failing only when the model has no known context size or its
/// tokenizer does not support chat counting.
#[verifier::external_body]
pub(crate) fn chat_completion_max_tokens(model: &str, prompt: &str) -> (r: Option<usize>)
    ensures
        r == chat_budget(model@, prompt@),
{
    let messages = [tiktoken_rs::ChatCompletionRequestMessage {
        role: "user".to_string(),
        content: Some(prompt.to_string()),
        ..Default::default()
    }];
    tiktoken_rs::get_chat_completion_max_tokens(model, &messages).ok()
}

} // verus!
