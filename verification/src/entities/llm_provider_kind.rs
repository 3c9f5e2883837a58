//! The kinds of providers a configuration can hold.
use vstd::prelude::*;

use crate::describe::provider_description;
use crate::entities::temperature::temperature_name;
use crate::providers::openai_like_provider::{effective_temperature, OpenAILikeProvider};

verus! {

/// A configured provider, by kind.
#[derive(Debug)]
pub enum LLMProviderKind {
    Openrouter(OpenAILikeProvider),
    Deepseek(OpenAILikeProvider),
    OpenAILike(OpenAILikeProvider),
    Gemini(OpenAILikeProvider),
}

/// The kind of a provider, without its configuration.
#[derive(Clone, Copy, Debug, PartialEq, Eq, Structural)]
pub enum LLMProviderKindOnly {
    Openrouter,
    Deepseek,
    OpenAILike,
    Gemini,
}

/// The configuration held by a provider of any kind.
pub open spec fn kind_provider(k: LLMProviderKind) -> OpenAILikeProvider {
    match k {
        LLMProviderKind::Openrouter(p) => p,
        LLMProviderKind::Deepseek(p) => p,
        LLMProviderKind::OpenAILike(p) => p,
        LLMProviderKind::Gemini(p) => p,
    }
}

/// The kind of a provider.
pub open spec fn kind_of(k: LLMProviderKind) -> LLMProviderKindOnly {
    match k {
        LLMProviderKind::Openrouter(_) => LLMProviderKindOnly::Openrouter,
        LLMProviderKind::Deepseek(_) => LLMProviderKindOnly::Deepseek,
        LLMProviderKind::OpenAILike(_) => LLMProviderKindOnly::OpenAILike,
        LLMProviderKind::Gemini(_) => LLMProviderKindOnly::Gemini,
    }
}

/// The name under which a kind is shown.
pub open spec fn kind_name(k: LLMProviderKindOnly) -> Seq<char> {
    match k {
        LLMProviderKindOnly::Openrouter => "Openrouter"@,
        LLMProviderKindOnly::Deepseek => "Deepseek"@,
        LLMProviderKindOnly::OpenAILike => "OpenAI-like"@,
        LLMProviderKindOnly::Gemini => "Gemini"@,
    }
}

impl LLMProviderKindOnly {
    pub fn to_string(&self) -> (r: String)
        ensures
            r@ == kind_name(*self),
    {
        match self {
            LLMProviderKindOnly::Openrouter => String::from_str("Openrouter"),
            LLMProviderKindOnly::Deepseek => String::from_str("Deepseek"),
            LLMProviderKindOnly::OpenAILike => String::from_str("OpenAI-like"),
            LLMProviderKindOnly::Gemini => String::from_str("Gemini"),
        }
    }
}

impl Clone for LLMProviderKind {
    fn clone(&self) -> (r: Self)
        ensures
            kind_of(r) == kind_of(*self),
            kind_provider(r)@ == kind_provider(*self)@,
    {
        match self {
            LLMProviderKind::Openrouter(p) => LLMProviderKind::Openrouter(p.clone()),
            LLMProviderKind::Deepseek(p) => LLMProviderKind::Deepseek(p.clone()),
            LLMProviderKind::OpenAILike(p) => LLMProviderKind::OpenAILike(p.clone()),
            LLMProviderKind::Gemini(p) => LLMProviderKind::Gemini(p.clone()),
        }
    }
}

impl LLMProviderKind {
    /// The kind of the provider.
    pub fn kind_only(&self) -> (r: LLMProviderKindOnly)
        ensures
            r == kind_of(*self),
    {
        match self {
            LLMProviderKind::Openrouter(_) => LLMProviderKindOnly::Openrouter,
            LLMProviderKind::Deepseek(_) => LLMProviderKindOnly::Deepseek,
            LLMProviderKind::OpenAILike(_) => LLMProviderKindOnly::OpenAILike,
            LLMProviderKind::Gemini(_) => LLMProviderKindOnly::Gemini,
        }
    }

    /// The configuration of the provider.
    pub fn provider(&self) -> (r: &OpenAILikeProvider)
        ensures
            *r == kind_provider(*self),
    {
        match self {
            LLMProviderKind::Openrouter(p) => p,
            LLMProviderKind::Deepseek(p) => p,
            LLMProviderKind::OpenAILike(p) => p,
            LLMProviderKind::Gemini(p) => p,
        }
    }

    /// The provider's name, as it is displayed.
    pub fn to_string(&self) -> (r: String)
        ensures
            r@ == kind_provider(*self)@.name,
    {
        String::from_str(self.provider().name())
    }

    /// The description of the provider.
    pub fn describe(&self) -> (r: String)
        ensures
            r@ == ({
                let p = kind_provider(*self)@;
                provider_description(
                    p.name,
                    p.model,
                    p.endpoint_url,
                    p.auth_token_env_key,
                    Some(temperature_name(effective_temperature(p.temperature))),
                    p.proxy,
                )
            }),
    {
        self.provider().describe()
    }
}

} // verus!
