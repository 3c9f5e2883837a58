//! An Ollama server asked through its native generation endpoint.
use vstd::prelude::*;

use crate::describe::{describe_provider, provider_description};
use crate::entities::system_prompt::SYSTEM_PROMPT;
use crate::entities::proxy::{opt_proxy_scheme, opt_proxy_view, LLMProxy};
use crate::providers::base_provider::ProviderView;
use crate::text::{endpoint_url_with, endpoint_with_path, opt_as_str, opt_str_view, opt_view};

verus! {

/// A configured Ollama server, asked through its native generation
/// endpoint.
#[derive(Debug)]
pub struct OllamaProvider {
    name: String,
    endpoint_url: String,
    auth_token_env_key: Option<String>,
    model: String,
    proxy: Option<LLMProxy>,
}

impl View for OllamaProvider {
    type V = ProviderView;

    closed spec fn view(&self) -> ProviderView {
        ProviderView {
            name: self.name@,
            endpoint_url: self.endpoint_url@,
            auth_token_env_key: opt_view(self.auth_token_env_key),
            model: self.model@,
            proxy: opt_proxy_view(self.proxy),
        }
    }
}

impl OllamaProvider {
    pub fn new(
        name: String,
        endpoint_url: String,
        auth_token_env_key: Option<String>,
        model: String,
        proxy: Option<LLMProxy>,
    ) -> (r: Self)
        ensures
            r@ == (ProviderView {
                name: name@,
                endpoint_url: endpoint_url@,
                auth_token_env_key: opt_view(auth_token_env_key),
                model: model@,
                proxy: opt_proxy_view(proxy),
            }),
    {
        OllamaProvider { name, endpoint_url, auth_token_env_key, model, proxy }
    }

    pub fn name(&self) -> (r: &str)
        ensures
            r@ == self@.name,
    {
        self.name.as_str()
    }

    pub fn enpoint_url(&self) -> (r: &str)
        ensures
            r@ == self@.endpoint_url,
    {
        self.endpoint_url.as_str()
    }

    /// The name of the environment variable that holds the token.
    pub fn auth_token_env_key(&self) -> (r: Option<&str>)
        ensures
            opt_str_view(r) == self@.auth_token_env_key,
    {
        opt_as_str(&self.auth_token_env_key)
    }

    pub fn model(&self) -> (r: &str)
        ensures
            r@ == self@.model,
    {
        self.model.as_str()
    }

    pub fn proxy(&self) -> (r: Option<&LLMProxy>)
        ensures
            match r {
                Some(p) => self@.proxy == Some(p@),
                None => self@.proxy is None,
            },
    {
        match &self.proxy {
            Some(p) => Some(p),
            None => None,
        }
    }

    /// The description shown when the provider is listed.
    pub fn describe(&self) -> (r: String)
        ensures
            r@ == provider_description(
                self@.name,
                self@.model,
                self@.endpoint_url,
                self@.auth_token_env_key,
                None,
                self@.proxy,
            ),
    {
        describe_provider(
            self.name.as_str(),
            self.model.as_str(),
            self.endpoint_url.as_str(),
            opt_as_str(&self.auth_token_env_key),
            None,
            opt_proxy_scheme(&self.proxy),
        )
    }

    /// Where generation requests are sent.
    pub fn generate_url(&self) -> (r: String)
        ensures
            r@ == endpoint_url_with(self@.endpoint_url, false, "/api/generate"@),
    {
        endpoint_with_path(self.endpoint_url.as_str(), false, "/api/generate")
    }

    /// The body of the generation request that asks `prompt`: the
    /// provider's model, the prompt, no streaming, and the system prompt.
    pub fn generate_body(&self, prompt: &str) -> (r: GenerateRequestBody)
        ensures
            r@ == (GenerateRequestBodyView {
                model: self@.model,
                prompt: prompt@,
                stream: false,
                system: SYSTEM_PROMPT@,
            }),
    {
        GenerateRequestBody {
            model: self.model.clone(),
            prompt: String::from_str(prompt),
            stream: false,
            system: String::from_str(SYSTEM_PROMPT),
        }
    }
}

/// The body of a generation request.
#[derive(Debug)]
pub struct GenerateRequestBody {
    model: String,
    prompt: String,
    stream: bool,
    system: String,
}

/// What a generation request body holds.
pub struct GenerateRequestBodyView {
    pub model: Seq<char>,
    pub prompt: Seq<char>,
    pub stream: bool,
    pub system: Seq<char>,
}

impl View for GenerateRequestBody {
    type V = GenerateRequestBodyView;

    closed spec fn view(&self) -> GenerateRequestBodyView {
        GenerateRequestBodyView {
            model: self.model@,
            prompt: self.prompt@,
            stream: self.stream,
            system: self.system@,
        }
    }
}

impl GenerateRequestBody {
    pub fn model(&self) -> (r: &str)
        ensures
            r@ == self@.model,
    {
        self.model.as_str()
    }

    pub fn prompt(&self) -> (r: &str)
        ensures
            r@ == self@.prompt,
    {
        self.prompt.as_str()
    }

    pub fn stream(&self) -> (r: bool)
        ensures
            r == self@.stream,
    {
        self.stream
    }

    pub fn system(&self) -> (r: &str)
        ensures
            r@ == self@.system,
    {
        self.system.as_str()
    }
}

/// The reply of the generation endpoint.
#[derive(Debug)]
pub struct OllamaGenerateResponse {
    pub response: String,
}

/// The answer that a generation reply gives: its `response` text.
pub fn generated_answer(resp: &OllamaGenerateResponse) -> (r: String)
    ensures
        r@ == resp.response@,
{
    resp.response.clone()
}

} // verus!
