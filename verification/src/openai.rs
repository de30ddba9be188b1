use vstd::prelude::*;
use vstd::string::StringExecFns;
use crate::config::Config;
use crate::errors::CoreError;
use crate::provider::Provider;
use crate::provider::ProviderFactory;

verus! {

/// The one completion exchange an HTTP backend needs, in plain
/// values: where to send it, the bearer credential, and the fields of
/// the request body. The shell that owns the network connection
/// performs it and hands back a `TransportOutcome`.
pub struct CompletionRequest {
    pub endpoint: String,
    pub api_key: String,
    pub model: String,
    pub role: String,
    pub content: String,
    pub stream: bool,
}

/// The decision half of an HTTP completion backend: it knows its
/// credential and model and states the exact request for a prompt.
/// The network exchange itself is the caller's.
pub struct OpenAIClient {
    api_key: String,
    model: String,
}

impl OpenAIClient {
    pub closed spec fn spec_api_key(&self) -> Seq<char> {
        self.api_key@
    }

    pub closed spec fn spec_model(&self) -> Seq<char> {
        self.model@
    }

    /// A client for the default model.
    pub fn new(api_key: &str) -> (r: OpenAIClient)
        ensures
            r.spec_api_key() == api_key@,
            r.spec_model() == "gpt-4-turbo"@,
    {
        OpenAIClient { api_key: api_key.to_owned(), model: String::from_str("gpt-4-turbo") }
    }

    /// A client for an explicitly chosen model.
    pub fn with_model(api_key: &str, model: String) -> (r: OpenAIClient)
        ensures
            r.spec_api_key() == api_key@,
            r.spec_model() == model@,
    {
        OpenAIClient { api_key: api_key.to_owned(), model }
    }

    /// The exact exchange that completes `prompt`: one user message,
    /// not streamed, against the chat-completions endpoint.
    pub fn request_for(&self, prompt: &str) -> (r: CompletionRequest)
        ensures
            r.endpoint@ == "https://api.openai.com/v1/chat/completions"@,
            r.api_key@ == self.spec_api_key(),
            r.model@ == self.spec_model(),
            r.role@ == "user"@,
            r.content@ == prompt@,
            r.stream == false,
    {
        CompletionRequest {
            endpoint: String::from_str("https://api.openai.com/v1/chat/completions"),
            api_key: self.api_key.clone(),
            model: self.model.clone(),
            role: String::from_str("user"),
            content: prompt.to_owned(),
            stream: false,
        }
    }
}

/// The factory registered under the name `openai`. It requires a
/// credential; the model defaults to `gpt-4-turbo` unless the
/// configuration chooses one. Construction only wires values — it
/// performs no network I/O.
pub struct OpenAIFactory {}

impl OpenAIFactory {
    pub fn new() -> (r: OpenAIFactory) {
        OpenAIFactory {  }
    }
}

impl ProviderFactory for OpenAIFactory {
    open spec fn spec_name(&self) -> Seq<char> {
        "openai"@
    }

    open spec fn spec_accepts(&self, config: Config) -> bool {
        config.credential is Some
    }

    open spec fn spec_created(&self, config: Config, p: Provider) -> bool {
        p matches Provider::OpenAi(c) && c.spec_api_key() == config.credential->0@
            && c.spec_model() == if config.model is Some {
            config.model->0@
        } else {
            "gpt-4-turbo"@
        }
    }

    open spec fn spec_rejection(&self, config: Config) -> Seq<char> {
        "provider 'openai' requires a credential"@
    }

    fn name(&self) -> (r: String) {
        String::from_str("openai")
    }

    fn create(&self, config: &Config) -> (r: Result<Provider, CoreError>) {
        match &config.credential {
            Some(key) => {
                let client = match &config.model {
                    Some(model) => OpenAIClient::with_model(key.as_str(), model.clone()),
                    None => OpenAIClient::new(key.as_str()),
                };
                Ok(Provider::OpenAi(client))
            },
            None => Err(
                CoreError::ConfigError(String::from_str("provider 'openai' requires a credential")),
            ),
        }
    }
}

} // verus!
