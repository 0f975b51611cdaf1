//! Classified failures: configuration errors raised once at construction, and
//! per-call completion failures.

use vstd::prelude::*;

verus! {

/// A failure while building the client from its settings. Fatal to startup
/// and never retried.
#[derive(Debug, Clone, PartialEq, Eq)]
pub enum ConfigError {
    /// The API key was missing or empty.
    MissingApiKey,
    /// No custom API base was set and no model was chosen.
    MissingModel,
    /// A proxy URL was supplied but is not a well-formed URL.
    InvalidProxy,
    /// The HTTP client could not be constructed; carries the builder's report.
    Transport(String),
}

impl ConfigError {
    /// The human-readable description of this failure.
    pub open spec fn message_spec(self) -> Seq<char> {
        match self {
            ConfigError::MissingApiKey => "No OpenAI API key found. Please provide a valid API key."@,
            ConfigError::MissingModel => "No OpenAI model configured. Please choose a valid model to use."@,
            ConfigError::InvalidProxy => "The configured proxy is not a valid URL."@,
            ConfigError::Transport(detail) => "Could not build the HTTP client: "@ + detail@,
        }
    }

    pub fn message(&self) -> (r: String)
        ensures
            r@ == self.message_spec(),
    {
        match self {
            ConfigError::MissingApiKey => "No OpenAI API key found. Please provide a valid API key.".to_owned(),
            ConfigError::MissingModel => "No OpenAI model configured. Please choose a valid model to use.".to_owned(),
            ConfigError::InvalidProxy => "The configured proxy is not a valid URL.".to_owned(),
            ConfigError::Transport(detail) => "Could not build the HTTP client: ".to_owned().concat(
                detail.as_str(),
            ),
        }
    }
}

/// A failure of one completion call. None of these is silently swallowed:
/// every call returns either the completion text or one of these.
#[derive(Debug, Clone, PartialEq, Eq)]
pub enum CompletionError {
    /// The model identifier has no known tokenizer or context-window mapping;
    /// carries the identifier.
    UnknownModel(String),
    /// The remaining token budget is below the floor; the request was not sent.
    PromptTooLarge,
    /// The provider returned zero choices, or a choice with no content.
    EmptyResponse,
    /// The call itself failed: connection, timeout, or TLS; carries the report.
    Transport(String),
    /// The provider returned a non-success status or an API-level error.
    Provider(String),
}

impl CompletionError {
    /// The human-readable description of this failure.
    pub open spec fn message_spec(self) -> Seq<char> {
        match self {
            CompletionError::UnknownModel(model) => "No tokenizer found for model "@ + model@,
            CompletionError::PromptTooLarge => "The prompt is too large for the current model. Consider using a model with a larger context window."@,
            CompletionError::EmptyResponse => "No completion results returned from OpenAI."@,
            CompletionError::Transport(detail) => "The request could not be completed: "@ + detail@,
            CompletionError::Provider(detail) => "OpenAI reported an error: "@ + detail@,
        }
    }

    pub fn message(&self) -> (r: String)
        ensures
            r@ == self.message_spec(),
    {
        match self {
            CompletionError::UnknownModel(model) => "No tokenizer found for model ".to_owned().concat(
                model.as_str(),
            ),
            CompletionError::PromptTooLarge => "The prompt is too large for the current model. Consider using a model with a larger context window.".to_owned(),
            CompletionError::EmptyResponse => "No completion results returned from OpenAI.".to_owned(),
            CompletionError::Transport(detail) => "The request could not be completed: ".to_owned().concat(
                detail.as_str(),
            ),
            CompletionError::Provider(detail) => "OpenAI reported an error: ".to_owned().concat(
                detail.as_str(),
            ),
        }
    }
}

} // verus!
