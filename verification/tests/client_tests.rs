use openai_client::client::{OpenAIClient, OpenAISettings};
use openai_client::errors::ConfigError;

fn settings(
    api_base: Option<&str>,
    api_key: Option<&str>,
    model: Option<&str>,
    proxy: Option<&str>,
    retries: Option<u32>,
) -> OpenAISettings {
    OpenAISettings {
        api_base: api_base.map(|s| s.to_string()),
        api_key: api_key.map(|s| s.to_string()),
        model: model.map(|s| s.to_string()),
        proxy: proxy.map(|s| s.to_string()),
        retries,
    }
}

#[test]
fn empty_api_key_is_rejected() {
    let r = OpenAIClient::new(settings(None, Some(""), Some("gpt-4"), None, None));
    assert!(matches!(r, Err(ConfigError::MissingApiKey)));
    let r = OpenAIClient::new(settings(None, None, Some("gpt-4"), None, None));
    assert!(matches!(r, Err(ConfigError::MissingApiKey)));
}

#[test]
fn empty_base_and_model_is_rejected() {
    let r = OpenAIClient::new(settings(None, Some("SECRET-REDACTED"), None, None, None));
    assert!(matches!(r, Err(ConfigError::MissingModel)));
    let r = OpenAIClient::new(settings(Some(""), Some("SECRET-REDACTED"), Some(""), None, None));
    assert!(matches!(r, Err(ConfigError::MissingModel)));
}

#[test]
fn model_without_base_succeeds() {
    let r = OpenAIClient::new(settings(None, Some("SECRET-REDACTED"), Some("gpt-4"), None, None));
    let client = r.expect("construction should succeed");
    assert_eq!(client.model(), "gpt-4");
    assert!(client.retry_policy().is_none());
}

#[test]
fn custom_base_without_model_succeeds() {
    let r = OpenAIClient::new(settings(
        Some("http://localhost:8080/v1"),
        Some("SECRET-REDACTED"),
        None,
        None,
        None,
    ));
    let client = r.expect("construction should succeed");
    assert_eq!(client.model(), "");
}

#[test]
fn invalid_proxy_url_is_rejected() {
    let r = OpenAIClient::new(settings(
        None,
        Some("SECRET-REDACTED"),
        Some("gpt-4"),
        Some("http://[:::1]"),
        None,
    ));
    assert!(matches!(r, Err(ConfigError::InvalidProxy)));
}

#[test]
fn valid_proxy_url_is_accepted() {
    let r = OpenAIClient::new(settings(
        None,
        Some("SECRET-REDACTED"),
        Some("gpt-4"),
        Some("http://localhost:3128"),
        None,
    ));
    assert!(r.is_ok());
}

#[test]
fn positive_retries_enable_the_backoff_policy() {
    let with = OpenAIClient::new(settings(None, Some("SECRET-REDACTED"), Some("gpt-4"), None, Some(2)))
        .expect("construction should succeed");
    assert!(with.retry_policy().is_some());
    let without = OpenAIClient::new(settings(None, Some("SECRET-REDACTED"), Some("gpt-4"), None, Some(0)))
        .expect("construction should succeed");
    assert!(without.retry_policy().is_none());
}

#[test]
fn describe_names_the_model_and_hides_the_key() {
    let client = OpenAIClient::new(settings(None, Some("SECRET-REDACTED"), Some("gpt-4"), None, None))
        .expect("construction should succeed");
    let shown = client.describe();
    assert_eq!(shown, "OpenAIClient { model: gpt-4 }");
    assert!(!shown.contains("SECRET"));
}

#[test]
fn config_error_messages_describe_the_failure() {
    assert!(ConfigError::MissingApiKey.message().contains("API key"));
    assert!(ConfigError::MissingModel.message().contains("model"));
    assert!(ConfigError::InvalidProxy.message().contains("proxy"));
    assert_eq!(
        ConfigError::Transport("boom".to_string()).message(),
        "Could not build the HTTP client: boom"
    );
}
