use openai_client::strategy::should_use_chat_completion;

#[test]
fn gpt4_family_routes_to_chat() {
    assert!(should_use_chat_completion("gpt-4"));
    assert!(should_use_chat_completion("gpt-4-32k"));
    assert!(should_use_chat_completion("gpt-4o-mini"));
    assert!(should_use_chat_completion("gpt-3.5-turbo"));
    assert!(should_use_chat_completion("gpt-3.5-turbo-16k"));
}

#[test]
fn casing_is_ignored() {
    assert!(should_use_chat_completion("GPT-4"));
    assert!(should_use_chat_completion("Gpt-3.5-Turbo-16K"));
    assert!(should_use_chat_completion("gPt-4O"));
}

#[test]
fn other_models_route_to_legacy() {
    assert!(!should_use_chat_completion("text-davinci-003"));
    assert!(!should_use_chat_completion("davinci"));
    assert!(!should_use_chat_completion("gpt-3"));
    assert!(!should_use_chat_completion("gpt-3.5-turb"));
    assert!(!should_use_chat_completion(""));
}

#[test]
fn prefix_must_start_the_identifier() {
    assert!(!should_use_chat_completion("my-gpt-4"));
    assert!(!should_use_chat_completion(" gpt-4"));
}
