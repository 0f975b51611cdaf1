use openai_client::client::{CompletionRequest, OpenAIClient, OpenAISettings};
use openai_client::errors::CompletionError;

fn client_for(model: &str) -> OpenAIClient {
    OpenAIClient::new(OpenAISettings {
        api_base: None,
        api_key: Some("SECRET-REDACTED".to_string()),
        model: Some(model.to_string()),
        proxy: None,
        retries: None,
    })
    .expect("construction should succeed")
}

#[test]
fn chat_model_gets_a_chat_request() {
    let client = client_for("gpt-3.5-turbo-16k");
    let plan = client.plan_completion("Summarize this diff").expect("plan should succeed");
    match plan {
        CompletionRequest::Chat { model, prompt, params } => {
            assert_eq!(model, "gpt-3.5-turbo-16k");
            assert_eq!(prompt, "Summarize this diff");
            assert_eq!(params.temperature_hundredths, 50);
            assert_eq!(params.top_p_hundredths, 100);
            assert_eq!(params.frequency_penalty_hundredths, 0);
            assert_eq!(params.presence_penalty_hundredths, 0);
        },
        CompletionRequest::Legacy { .. } => panic!("expected the chat path"),
    }
}

#[test]
fn legacy_model_gets_the_whole_remaining_budget() {
    let client = client_for("text-davinci-003");
    let prompt = "Summarize this diff";
    let plan = client.plan_completion(prompt).expect("plan should succeed");
    let expected =
        tiktoken_rs::get_text_completion_max_tokens("text-davinci-003", prompt).unwrap();
    match plan {
        CompletionRequest::Legacy { model, prompt: p, max_tokens, params } => {
            assert_eq!(model, "text-davinci-003");
            assert_eq!(p, prompt);
            assert_eq!(max_tokens as usize, expected);
            assert!(max_tokens >= 100);
            assert!((max_tokens as usize) < 4097);
            assert_eq!(params.temperature_hundredths, 50);
        },
        CompletionRequest::Chat { .. } => panic!("expected the legacy path"),
    }
}

#[test]
fn unknown_model_is_reported_with_its_name() {
    let client = client_for("imaginary-model-9000");
    let err = client.plan_completion("hello").unwrap_err();
    match err {
        CompletionError::UnknownModel(model) => assert_eq!(model, "imaginary-model-9000"),
        other => panic!("expected UnknownModel, got {:?}", other),
    }
}

#[test]
fn oversized_prompt_is_rejected_before_any_network_call() {
    let client = client_for("text-davinci-003");
    let huge = "lorem ipsum dolor sit amet ".repeat(2000);
    let err = client.plan_completion(&huge).unwrap_err();
    assert!(matches!(err, CompletionError::PromptTooLarge));
}

#[test]
fn budget_floor_is_one_hundred_tokens() {
    assert_eq!(openai_client::budget::COMPLETION_TOKEN_LIMIT, 100);
    assert!(!openai_client::budget::budget_allows_request(99));
    assert!(openai_client::budget::budget_allows_request(100));
}

#[test]
fn completion_error_messages_describe_the_failure() {
    assert_eq!(
        CompletionError::UnknownModel("m1".to_string()).message(),
        "No tokenizer found for model m1"
    );
    assert!(CompletionError::PromptTooLarge.message().contains("larger context window"));
    assert_eq!(
        CompletionError::EmptyResponse.message(),
        "No completion results returned from OpenAI."
    );
    assert!(CompletionError::Transport("timed out".to_string()).message().contains("timed out"));
    assert!(CompletionError::Provider("bad status".to_string()).message().contains("bad status"));
}
