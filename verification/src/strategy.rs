//! Strategy selection: which of the provider's two completion API shapes a
//! given model identifier requires.

use vstd::prelude::*;
use crate::text::{lower, starts_with_lower};

verus! {

/// A model uses the chat-completion API shape exactly when its identifier
/// starts, case-insensitively, with "gpt-4" or "gpt-3.5-turbo".
pub open spec fn is_chat_model(model: Seq<char>) -> bool {
    "gpt-4"@.is_prefix_of(lower(model)) || "gpt-3.5-turbo"@.is_prefix_of(lower(model))
}

/// Single source of truth for routing between the chat-completion and the
/// legacy-completion code paths.
pub fn should_use_chat_completion(model: &str) -> (r: bool)
    ensures
        r == is_chat_model(model@),
{
    starts_with_lower(model, "gpt-4") || starts_with_lower(model, "gpt-3.5-turbo")
}

/// Law: strategy selection is case-insensitive. Two model identifiers that
/// agree after ASCII case folding are routed the same way.
pub proof fn lemma_chat_model_case_insensitive(a: Seq<char>, b: Seq<char>)
    requires
        lower(a) == lower(b),
    ensures
        is_chat_model(a) == is_chat_model(b),
{
}

} // verus!
