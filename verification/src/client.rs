//! The configured client: settings validation, transport construction, and
//! per-call request planning and response extraction around the provider's
//! two completion endpoints.

use vstd::prelude::*;
use crate::budget::{
    budget_allows_request, chat_budget, chat_completion_max_tokens, text_budget,
    text_completion_max_tokens, COMPLETION_TOKEN_LIMIT,
};
use crate::errors::{CompletionError, ConfigError};
use crate::strategy::{is_chat_model, should_use_chat_completion};
use crate::text::{trim, trim_spec};

verus! {

#[verifier::external_type_specification]
#[verifier::external_body]
pub struct ExReqwestClient(reqwest::Client);

#[verifier::external_type_specification]
#[verifier::external_body]
pub struct ExClientBuilder(reqwest::ClientBuilder);

#[verifier::external_type_specification]
#[verifier::external_body]
pub struct ExProxy(reqwest::Proxy);

#[verifier::external_type_specification]
#[verifier::external_body]
pub struct ExReqwestError(reqwest::Error);

#[verifier::external_type_specification]
#[verifier::external_body]
pub struct ExOpenAIConfig(async_openai::config::OpenAIConfig);

#[verifier::external_type_specification]
#[verifier::external_body]
pub struct ExSystemClock(backoff::SystemClock);

#[verifier::external_type_specification]
#[verifier::external_body]
#[verifier::reject_recursive_types(C)]
pub struct ExExponentialBackoff<C>(backoff::exponential::ExponentialBackoff<C>);

/// Relies on reqwest::Client::builder to start a client configuration.
#[verifier::external_body]
fn client_builder() -> reqwest::ClientBuilder {
    reqwest::Client::builder()
}

/// Relies on reqwest::ClientBuilder::gzip to toggle gzip response decompression.
#[verifier::external_body]
fn builder_gzip(b: reqwest::ClientBuilder, enable: bool) -> reqwest::ClientBuilder {
    b.gzip(enable)
}

/// Relies on reqwest::ClientBuilder::brotli to toggle brotli response decompression.
#[verifier::external_body]
fn builder_brotli(b: reqwest::ClientBuilder, enable: bool) -> reqwest::ClientBuilder {
    b.brotli(enable)
}

/// Relies on reqwest::ClientBuilder::timeout to bound each request end to end.
#[verifier::external_body]
fn builder_timeout_secs(b: reqwest::ClientBuilder, secs: u64) -> reqwest::ClientBuilder {
    b.timeout(std::time::Duration::from_secs(secs))
}

/// Relies on reqwest::ClientBuilder::user_agent to set the identifying header.
#[verifier::external_body]
fn builder_user_agent(b: reqwest::ClientBuilder, ua: &str) -> reqwest::ClientBuilder {
    b.user_agent(ua)
}

/// Relies on reqwest::ClientBuilder::http2_prior_knowledge to speak HTTP/2 without upgrade.
#[verifier::external_body]
fn builder_http2_prior_knowledge(b: reqwest::ClientBuilder) -> reqwest::ClientBuilder {
    b.http2_prior_knowledge()
}

/// Relies on reqwest::ClientBuilder::https_only to refuse plain-text connections.
#[verifier::external_body]
fn builder_https_only(b: reqwest::ClientBuilder, enable: bool) -> reqwest::ClientBuilder {
    b.https_only(enable)
}

/// Relies on reqwest::ClientBuilder::http2_adaptive_window for adaptive flow control.
#[verifier::external_body]
fn builder_http2_adaptive_window(b: reqwest::ClientBuilder, enable: bool) -> reqwest::ClientBuilder {
    b.http2_adaptive_window(enable)
}

/// Relies on reqwest::ClientBuilder::tcp_keepalive to probe idle TCP connections.
#[verifier::external_body]
fn builder_tcp_keepalive_secs(b: reqwest::ClientBuilder, secs: u64) -> reqwest::ClientBuilder {
    b.tcp_keepalive(std::time::Duration::from_secs(secs))
}

/// Relies on reqwest::ClientBuilder::http2_keep_alive_interval for HTTP/2 ping intervals.
#[verifier::external_body]
fn builder_http2_keep_alive_interval_secs(b: reqwest::ClientBuilder, secs: u64) -> reqwest::ClientBuilder {
    b.http2_keep_alive_interval(std::time::Duration::from_secs(secs))
}

/// Relies on reqwest::ClientBuilder::http2_keep_alive_while_idle to ping idle connections.
#[verifier::external_body]
fn builder_http2_keep_alive_while_idle(b: reqwest::ClientBuilder, enable: bool) -> reqwest::ClientBuilder {
    b.http2_keep_alive_while_idle(enable)
}

/// Relies on reqwest::ClientBuilder::min_tls_version, with reqwest::tls::Version::TLS_1_2
/// as the floor.
#[verifier::external_body]
fn builder_min_tls_1_2(b: reqwest::ClientBuilder) -> reqwest::ClientBuilder {
    b.min_tls_version(reqwest::tls::Version::TLS_1_2)
}

/// Relies on reqwest::ClientBuilder::proxy to route all traffic through a proxy.
#[verifier::external_body]
fn builder_proxy(b: reqwest::ClientBuilder, proxy: reqwest::Proxy) -> reqwest::ClientBuilder {
    b.proxy(proxy)
}

/// Relies on reqwest::ClientBuilder::build to finish the client.
#[verifier::external_body]
fn builder_build(b: reqwest::ClientBuilder) -> Result<reqwest::Client, reqwest::Error> {
    b.build()
}

/// Whether reqwest::Proxy::all accepts this URL for proxying all traffic.
pub uninterp spec fn proxy_ok(url: Seq<char>) -> bool;

/// Relies on reqwest::Proxy::all: parses a proxy URL, accepting it exactly
/// when it is well formed.
#[verifier::external_body]
fn proxy_all(url: &str) -> (r: Option<reqwest::Proxy>)
    ensures
        r is Some <==> proxy_ok(url@),
{
    reqwest::Proxy::all(url).ok()
}

/// Relies on the Display impl of reqwest::Error for a readable report.
#[verifier::external_body]
fn reqwest_error_message(e: &reqwest::Error) -> String {
    e.to_string()
}

/// Relies on async_openai::config::OpenAIConfig::new for the provider's
/// default configuration.
#[verifier::external_body]
fn openai_config_new() -> async_openai::config::OpenAIConfig {
    async_openai::config::OpenAIConfig::new()
}

/// Relies on async_openai::config::OpenAIConfig::with_api_key to set the
/// bearer token used for authentication.
#[verifier::external_body]
fn config_with_api_key(
    cfg: async_openai::config::OpenAIConfig,
    key: String,
) -> async_openai::config::OpenAIConfig {
    cfg.with_api_key(key)
}

/// Relies on async_openai::config::OpenAIConfig::with_api_base to point the
/// client at a custom API base.
#[verifier::external_body]
fn config_with_api_base(
    cfg: async_openai::config::OpenAIConfig,
    base: &str,
) -> async_openai::config::OpenAIConfig {
    cfg.with_api_base(base)
}

/// Relies on backoff::ExponentialBackoffBuilder: an exponential backoff
/// policy whose retries stop once the given total elapsed time is reached.
#[verifier::external_body]
fn exponential_backoff_with_ceiling_secs(
    secs: u64,
) -> backoff::exponential::ExponentialBackoff<backoff::SystemClock> {
    backoff::ExponentialBackoffBuilder::new()
        .with_max_elapsed_time(Some(std::time::Duration::from_secs(secs)))
        .build()
}

/// The user agent that every outbound request identifies itself with.
pub fn http_user_agent() -> (r: &'static str)
    ensures
        r@ == "openai_client"@,
{
    "openai_client"
}

/// Builds the HTTP transport. Every client decompresses gzip and brotli
/// responses, carries the identifying user agent, and times out after 60
/// seconds. Against the provider's default endpoint (`optimized` true) the
/// transport additionally requires HTTPS with TLS 1.2 or newer, speaks
/// multiplexed HTTP/2 with prior knowledge, adaptive flow control, and
/// 60-second TCP and protocol keep-alive probing even while idle; a custom
/// endpoint is not assumed to support that profile. All traffic is routed
/// through `proxy` when one is given. No network I/O happens here.
fn build_http_transport(
    optimized: bool,
    proxy: Option<reqwest::Proxy>,
) -> (r: Result<reqwest::Client, ConfigError>)
    ensures
        r is Err ==> r->Err_0 is Transport,
{
    let mut b = client_builder();
    b = builder_gzip(b, true);
    b = builder_brotli(b, true);
    b = builder_timeout_secs(b, 60);
    b = builder_user_agent(b, http_user_agent());
    if optimized {
        b = builder_http2_prior_knowledge(b);
        b = builder_https_only(b, true);
        b = builder_http2_adaptive_window(b, true);
        b = builder_tcp_keepalive_secs(b, 60);
        b = builder_http2_keep_alive_interval_secs(b, 60);
        b = builder_http2_keep_alive_while_idle(b, true);
        b = builder_min_tls_1_2(b);
    }
    match proxy {
        Some(p) => {
            b = builder_proxy(b, p);
        },
        None => {},
    }
    match builder_build(b) {
        Ok(client) => Ok(client),
        Err(e) => Err(ConfigError::Transport(reqwest_error_message(&e))),
    }
}

/// The settings a client is built from, supplied fully populated by an
/// external configuration loader. An absent string field means the same as
/// an empty one.
pub struct OpenAISettings {
    /// Custom API base URL; empty or absent means the provider's default.
    pub api_base: Option<String>,
    /// The API key; must be non-empty.
    pub api_key: Option<String>,
    /// The model identifier; may be empty only when a custom base is set.
    pub model: Option<String>,
    /// Proxy URL for all traffic, if any.
    pub proxy: Option<String>,
    /// How many times a failed call is retried; zero or absent disables retries.
    pub retries: Option<u32>,
}

/// The string an optional settings field stands for: absent means empty.
pub open spec fn opt_str(o: Option<String>) -> Seq<char> {
    match o {
        Some(s) => s@,
        None => Seq::<char>::empty(),
    }
}

/// The retry count an optional settings field stands for: absent means zero.
pub open spec fn opt_retries(o: Option<u32>) -> u32 {
    match o {
        Some(n) => n,
        None => 0,
    }
}

/// A configured client: the resolved model identifier together with the
/// transport, provider configuration and retry policy that every completion
/// call shares read-only. Built once from its settings, never mutated.
pub struct OpenAIClient {
    model: String,
    default_endpoint: bool,
    http: reqwest::Client,
    config: async_openai::config::OpenAIConfig,
    retry: Option<backoff::exponential::ExponentialBackoff<backoff::SystemClock>>,
}

impl OpenAIClient {
    /// The resolved model identifier.
    pub closed spec fn spec_model(&self) -> Seq<char> {
        self.model@
    }

    /// Whether the provider's default endpoint is in use (no custom API base).
    pub closed spec fn spec_default_endpoint(&self) -> bool {
        self.default_endpoint
    }

    /// Whether outbound calls are wrapped in the exponential-backoff policy.
    pub closed spec fn spec_retry_enabled(&self) -> bool {
        self.retry is Some
    }

    /// Invariant of every successfully constructed client: a model was
    /// chosen, or a custom API base (which may imply one) was supplied.
    pub open spec fn wf(&self) -> bool {
        self.spec_model().len() > 0 || !self.spec_default_endpoint()
    }

    /// Builds a client from its settings.
    ///
    /// Fails with `MissingApiKey` exactly when the key is empty; otherwise
    /// with `MissingModel` exactly when both the API base and the model are
    /// empty; otherwise with `InvalidProxy` exactly when a non-empty proxy
    /// URL is supplied and is not well formed. Once those hold, only the
    /// HTTP client construction itself can still fail (`Transport`). No
    /// network I/O happens here.
    pub fn new(settings: OpenAISettings) -> (r: Result<OpenAIClient, ConfigError>)
        ensures
            ({
                let key = opt_str(settings.api_key);
                let base = opt_str(settings.api_base);
                let model = opt_str(settings.model);
                let proxy = opt_str(settings.proxy);
                &&& (r is Err && r->Err_0 is MissingApiKey) <==> key.len() == 0
                &&& (r is Err && r->Err_0 is MissingModel) <==> (key.len() > 0 && base.len() == 0
                    && model.len() == 0)
                &&& (r is Err && r->Err_0 is InvalidProxy) <==> (key.len() > 0 && (base.len() > 0
                    || model.len() > 0) && proxy.len() > 0 && !proxy_ok(proxy))
                &&& r is Ok ==> ({
                    let c = r->Ok_0;
                    &&& c.wf()
                    &&& c.spec_model() == model
                    &&& c.spec_default_endpoint() == (base.len() == 0)
                    &&& c.spec_retry_enabled() == (opt_retries(settings.retries) > 0)
                })
            }),
    {
        let api_base = match settings.api_base {
            Some(s) => s,
            None => String::new(),
        };
        let api_key = match settings.api_key {
            Some(s) => s,
            None => String::new(),
        };
        if api_key.as_str().is_empty() {
            return Err(ConfigError::MissingApiKey);
        }
        let model = match settings.model {
            Some(s) => s,
            None => String::new(),
        };
        let base_empty = api_base.as_str().is_empty();
        if base_empty && model.as_str().is_empty() {
            return Err(ConfigError::MissingModel);
        }
        let config = if base_empty {
            config_with_api_key(openai_config_new(), api_key)
        } else {
            config_with_api_base(config_with_api_key(openai_config_new(), api_key), api_base.as_str())
        };
        let proxy = match settings.proxy {
            Some(p) => {
                if p.as_str().is_empty() {
                    None
                } else {
                    match proxy_all(p.as_str()) {
                        Some(parsed) => Some(parsed),
                        None => {
                            return Err(ConfigError::InvalidProxy);
                        },
                    }
                }
            },
            None => None,
        };
        let http = match build_http_transport(base_empty, proxy) {
            Ok(client) => client,
            Err(e) => {
                return Err(e);
            },
        };
        let retries = match settings.retries {
            Some(n) => n,
            None => 0,
        };
        let retry = if retries > 0 {
            Some(exponential_backoff_with_ceiling_secs(60))
        } else {
            None
        };
        Ok(OpenAIClient { model, default_endpoint: base_empty, http, config, retry })
    }
}

/// The fixed sampling parameters every request is sent with, scaled by 100:
/// temperature 0.50, top-p 1.00, zero frequency and presence penalty.
#[derive(Debug, Clone, Copy, PartialEq, Eq, Structural)]
pub struct SamplingParams {
    pub temperature_hundredths: u16,
    pub top_p_hundredths: u16,
    pub frequency_penalty_hundredths: u16,
    pub presence_penalty_hundredths: u16,
}

/// The one sampling configuration this client uses.
pub open spec fn fixed_sampling() -> SamplingParams {
    SamplingParams {
        temperature_hundredths: 50,
        top_p_hundredths: 100,
        frequency_penalty_hundredths: 0,
        presence_penalty_hundredths: 0,
    }
}

/// Executable counterpart of `fixed_sampling`.
pub fn fixed_sampling_exec() -> (r: SamplingParams)
    ensures
        r == fixed_sampling(),
{
    SamplingParams {
        temperature_hundredths: 50,
        top_p_hundredths: 100,
        frequency_penalty_hundredths: 0,
        presence_penalty_hundredths: 0,
    }
}

/// One fully sized request, ready to be sent to the endpoint its variant
/// names. Constructed fresh per call and never retained.
#[derive(Debug, Clone, PartialEq, Eq)]
pub enum CompletionRequest {
    /// For the chat-completion endpoint: one user-role message holding the
    /// prompt.
    Chat { model: String, prompt: String, params: SamplingParams },
    /// For the legacy completion endpoint; the entire remaining token budget
    /// is offered to the model as its maximum response length.
    Legacy { model: String, prompt: String, max_tokens: u32, params: SamplingParams },
}

/// The remaining token budget for this model and prompt, on whichever of the
/// two API shapes the model routes to.
pub open spec fn completion_budget(model: Seq<char>, prompt: Seq<char>) -> Option<usize> {
    if is_chat_model(model) {
        chat_budget(model, prompt)
    } else {
        text_budget(model, prompt)
    }
}

/// The max-tokens value offered for a remaining budget: the whole budget,
/// clipped to what the request field can carry.
pub open spec fn budget_as_max_tokens(budget: usize) -> u32 {
    if budget > u32::MAX {
        u32::MAX
    } else {
        budget as u32
    }
}

impl OpenAIClient {
    /// Sizes and validates a request for this prompt without any network I/O.
    ///
    /// Routes by the model identifier, computes the remaining token budget on
    /// that path, and fails with `UnknownModel` exactly when the model has no
    /// tokenizer mapping, and with `PromptTooLarge` exactly when fewer than
    /// `COMPLETION_TOKEN_LIMIT` tokens remain for the response; nothing is
    /// sent in either case. Otherwise the returned request carries this
    /// model, the prompt, the fixed sampling parameters, and (on the legacy
    /// path) the entire remaining budget as its max-tokens value.
    pub fn plan_completion(&self, prompt: &str) -> (r: Result<CompletionRequest, CompletionError>)
        ensures
            ({
                let budget = completion_budget(self.spec_model(), prompt@);
                &&& r is Ok <==> (budget matches Some(b) && b >= COMPLETION_TOKEN_LIMIT)
                &&& (r is Err && r->Err_0 is UnknownModel) <==> budget is None
                &&& (r is Err && r->Err_0 is PromptTooLarge) <==> (budget matches Some(b) && b
                    < COMPLETION_TOKEN_LIMIT)
                &&& r is Err ==> (r->Err_0 matches CompletionError::UnknownModel(m) ==> m@
                    == self.spec_model())
                &&& r is Ok ==> ({
                    let req = r->Ok_0;
                    if is_chat_model(self.spec_model()) {
                        req matches CompletionRequest::Chat { model, prompt: p, params }
                            && model@ == self.spec_model() && p@ == prompt@ && params
                            == fixed_sampling()
                    } else {
                        req matches CompletionRequest::Legacy { model, prompt: p, max_tokens, params }
                            && model@ == self.spec_model() && p@ == prompt@ && params
                            == fixed_sampling() && max_tokens == budget_as_max_tokens(budget->0)
                    }
                })
            }),
    {
        let chat = should_use_chat_completion(self.model.as_str());
        let budget_opt = if chat {
            chat_completion_max_tokens(self.model.as_str(), prompt)
        } else {
            text_completion_max_tokens(self.model.as_str(), prompt)
        };
        match budget_opt {
            None => Err(CompletionError::UnknownModel(self.model.clone())),
            Some(budget) => {
                if !budget_allows_request(budget) {
                    Err(CompletionError::PromptTooLarge)
                } else if chat {
                    Ok(CompletionRequest::Chat {
                        model: self.model.clone(),
                        prompt: prompt.to_owned(),
                        params: fixed_sampling_exec(),
                    })
                } else {
                    let max_tokens: u32 = if budget > u32::MAX as usize {
                        u32::MAX
                    } else {
                        budget as u32
                    };
                    Ok(CompletionRequest::Legacy {
                        model: self.model.clone(),
                        prompt: prompt.to_owned(),
                        max_tokens,
                        params: fixed_sampling_exec(),
                    })
                }
            },
        }
    }
}

impl OpenAIClient {
    /// The resolved model identifier this client sends with every request.
    pub fn model(&self) -> (r: &String)
        ensures
            r@ == self.spec_model(),
    {
        &self.model
    }

    /// The configured transport that every call goes over.
    pub fn http_client(&self) -> &reqwest::Client {
        &self.http
    }

    /// The provider configuration: API base and bearer key.
    pub fn api_config(&self) -> &async_openai::config::OpenAIConfig {
        &self.config
    }

    /// A short description of this client, naming only the model identifier;
    /// the credentials it was configured with are never shown.
    pub fn describe(&self) -> (r: String)
        ensures
            r@ == "OpenAIClient { model: "@ + self.spec_model() + " }"@,
    {
        "OpenAIClient { model: ".to_owned().concat(self.model.as_str()).concat(" }")
    }

    /// The retry policy outbound calls are wrapped in, when retries were
    /// configured: exponential backoff bounded by a 60-second total
    /// elapsed-time ceiling. `None` means every call is attempted exactly once.
    pub fn retry_policy(&self) -> (r: &Option<
        backoff::exponential::ExponentialBackoff<backoff::SystemClock>,
    >)
        ensures
            (*r) is Some <==> self.spec_retry_enabled(),
    {
        &self.retry
    }
}

/// The first chat choice's message content, where each element of `choices`
/// is that choice's optional content. Fails with `EmptyResponse` exactly when
/// no choice came back or the first choice's message has no content.
pub fn extract_chat_content(choices: &Vec<Option<String>>) -> (r: Result<String, CompletionError>)
    ensures
        r is Ok <==> (choices@.len() > 0 && choices@[0] is Some),
        r is Ok ==> r->Ok_0@ == choices@[0]->0@,
        r is Err ==> r->Err_0 is EmptyResponse,
{
    if choices.len() == 0 {
        return Err(CompletionError::EmptyResponse);
    }
    match &choices[0] {
        Some(content) => Ok(content.clone()),
        None => Err(CompletionError::EmptyResponse),
    }
}

/// The first legacy choice's text. Fails with `EmptyResponse` exactly when no
/// choice came back.
pub fn extract_completion_text(choices: &Vec<String>) -> (r: Result<String, CompletionError>)
    ensures
        r is Ok <==> choices@.len() > 0,
        r is Ok ==> r->Ok_0@ == choices@[0]@,
        r is Err ==> r->Err_0 is EmptyResponse,
{
    if choices.len() == 0 {
        return Err(CompletionError::EmptyResponse);
    }
    Ok(choices[0].clone())
}

/// Turns the chat endpoint's choices into the final result: the first
/// choice's content with surrounding whitespace removed, or `EmptyResponse`
/// exactly when there is no such content.
pub fn finish_chat_completion(choices: &Vec<Option<String>>) -> (r: Result<String, CompletionError>)
    ensures
        r is Ok <==> (choices@.len() > 0 && choices@[0] is Some),
        r is Ok ==> r->Ok_0@ == trim_spec(choices@[0]->0@),
        r is Err ==> r->Err_0 is EmptyResponse,
{
    match extract_chat_content(choices) {
        Ok(content) => Ok(trim(content.as_str())),
        Err(e) => Err(e),
    }
}

/// Turns the legacy endpoint's choices into the final result: the first
/// choice's text with surrounding whitespace removed, or `EmptyResponse`
/// exactly when no choice came back.
pub fn finish_text_completion(choices: &Vec<String>) -> (r: Result<String, CompletionError>)
    ensures
        r is Ok <==> choices@.len() > 0,
        r is Ok ==> r->Ok_0@ == trim_spec(choices@[0]@),
        r is Err ==> r->Err_0 is EmptyResponse,
{
    match extract_completion_text(choices) {
        Ok(text) => Ok(trim(text.as_str())),
        Err(e) => Err(e),
    }
}

} // verus!
