//! A provider that speaks to an Ollama server through its
//! OpenAI-compatible endpoints.
use vstd::prelude::*;

use crate::describe::{describe_provider, provider_description};
use crate::entities::message::{message_views, Message, MessageView};
use crate::entities::proxy::{opt_proxy_scheme, opt_proxy_view, LLMProxy};
use crate::entities::role::Role;
use crate::providers::base_provider::{text_or_empty, ProviderView};
use crate::providers::llm_provider::{
    message_pairs, provider_role_name, LLMAnswer, LLMProviderMessage, LLMProviderMessageRole, LLMProviderRequestBody,
    ModelsResponse, RequestBodyView,
};
use crate::text::{endpoint_url_with, endpoint_with_path, opt_as_str, opt_str_view, opt_view};

verus! {

/// A configured Ollama server.
#[derive(Debug)]
pub struct OllamaProvider {
    name: String,
    endpoint_url: String,
    auth_token_env_key: Option<String>,
    model: String,
    proxy: Option<LLMProxy>,
}

impl View for OllamaProvider {
    type V = ProviderView;

    closed spec fn view(&self) -> ProviderView {
        ProviderView {
            name: self.name@,
            endpoint_url: self.endpoint_url@,
            auth_token_env_key: opt_view(self.auth_token_env_key),
            model: self.model@,
            proxy: opt_proxy_view(self.proxy),
        }
    }
}

impl OllamaProvider {
    pub fn new(
        name: String,
        endpoint_url: String,
        auth_token_env_key: Option<String>,
        model: String,
        proxy: Option<LLMProxy>,
    ) -> (r: Self)
        ensures
            r@ == (ProviderView {
                name: name@,
                endpoint_url: endpoint_url@,
                auth_token_env_key: opt_view(auth_token_env_key),
                model: model@,
                proxy: opt_proxy_view(proxy),
            }),
    {
        OllamaProvider { name, endpoint_url, auth_token_env_key, model, proxy }
    }

    pub fn name(&self) -> (r: &str)
        ensures
            r@ == self@.name,
    {
        self.name.as_str()
    }

    pub fn enpoint_url(&self) -> (r: &str)
        ensures
            r@ == self@.endpoint_url,
    {
        self.endpoint_url.as_str()
    }

    /// The name of the environment variable that holds the token.
    pub fn auth_token_env_key(&self) -> (r: Option<&str>)
        ensures
            opt_str_view(r) == self@.auth_token_env_key,
    {
        opt_as_str(&self.auth_token_env_key)
    }

    pub fn model(&self) -> (r: &str)
        ensures
            r@ == self@.model,
    {
        self.model.as_str()
    }

    pub fn proxy(&self) -> (r: Option<&LLMProxy>)
        ensures
            match r {
                Some(p) => self@.proxy == Some(p@),
                None => self@.proxy is None,
            },
    {
        match &self.proxy {
            Some(p) => Some(p),
            None => None,
        }
    }

    /// The description shown when the provider is listed.
    pub fn describe(&self) -> (r: String)
        ensures
            r@ == provider_description(
                self@.name,
                self@.model,
                self@.endpoint_url,
                self@.auth_token_env_key,
                None,
                self@.proxy,
            ),
    {
        describe_provider(
            self.name.as_str(),
            self.model.as_str(),
            self.endpoint_url.as_str(),
            opt_as_str(&self.auth_token_env_key),
            None,
            opt_proxy_scheme(&self.proxy),
        )
    }

    /// Where chat completion requests are sent.
    pub fn completions_url(&self) -> (r: String)
        ensures
            r@ == endpoint_url_with(self@.endpoint_url, false, "/v1/chat/completions"@),
    {
        endpoint_with_path(self.endpoint_url.as_str(), false, "/v1/chat/completions")
    }
}

impl OllamaProvider {
    /// The body of the request that asks `prompt` after `history`: the
    /// provider's model, the history then the prompt as messages, and no
    /// streaming; refused when a message of the history was written by a
    /// tool.
    pub fn request_body(&self, history: &[Message], prompt: &str) -> (r: Result<
        LLMProviderRequestBody,
        OllamaAskError,
    >)
        ensures
            match r {
                Ok(b) => sendable(message_views(history@)) && b@ == (RequestBodyView {
                    model: self@.model,
                    messages: ollama_request(message_views(history@), prompt@),
                    stream: false,
                }),
                Err(e) => e is UnsupportedRole && !sendable(message_views(history@)),
            },
    {
        let messages = ask_messages(history, prompt)?;
        Ok(LLMProviderRequestBody::new(self.model.as_str(), messages, false))
    }
}

/// Where the models of a server are listed, as the server's address was
/// entered.
pub fn models_url(endpoint_url: &str) -> (r: String)
    ensures
        r@ == endpoint_url@ + "/v1/models"@,
{
    let mut url = String::from_str(endpoint_url);
    url.append("/v1/models");
    url
}

/// How Ollama names a role; it has no name for tool messages.
pub open spec fn ollama_role(role: Role) -> Option<LLMProviderMessageRole> {
    match role {
        Role::System => Some(LLMProviderMessageRole::System),
        Role::User => Some(LLMProviderMessageRole::User),
        Role::Assistant => Some(LLMProviderMessageRole::Assistant),
        Role::Tools => None,
    }
}

/// Why a question could not be sent or answered.
#[derive(Clone, Copy, Debug, PartialEq, Eq, Structural)]
pub enum OllamaAskError {
    /// A message of the history has a role that Ollama cannot take.
    UnsupportedRole(Role),
    /// The reply held no choice.
    NoResponse,
}

/// Every message keeps its author when sent to Ollama: a role is sent
/// under its own name, and only a tool's message has no Ollama role.
pub proof fn lemma_ollama_role_keeps_author()
    ensures
        forall|r: Role|
            #[trigger] ollama_role(r) matches Some(x) ==> provider_role_name(x) == crate::entities::role::role_name(r),
        forall|r: Role| (#[trigger] ollama_role(r)) is None <==> r == Role::Tools,
{
}

/// The request sends the history in order, each message under its own
/// author's name and with its text, then the prompt as the user's.
pub proof fn lemma_ollama_request_keeps_history(history: Seq<MessageView>, prompt: Seq<char>)
    requires
        sendable(history),
    ensures
        ollama_request(history, prompt).len() == history.len() + 1,
        forall|i: int|
            0 <= i < history.len() ==> {
                &&& provider_role_name((#[trigger] ollama_request(history, prompt)[i]).0)
                    == crate::entities::role::role_name(history[i].role)
                &&& ollama_request(history, prompt)[i].1 == text_or_empty(history[i].content)
            },
        ollama_request(history, prompt).last() == (LLMProviderMessageRole::User, prompt),
{
    lemma_ollama_role_keeps_author();
    assert forall|i: int| 0 <= i < history.len() implies {
        &&& provider_role_name((#[trigger] ollama_request(history, prompt)[i]).0)
            == crate::entities::role::role_name(history[i].role)
        &&& ollama_request(history, prompt)[i].1 == text_or_empty(history[i].content)
    } by {
        assert(ollama_role(history[i].role) is Some);
    }
}

/// The history can be sent: every message has a role that Ollama names.
pub open spec fn sendable(history: Seq<MessageView>) -> bool {
    forall|i: int| 0 <= i < history.len() ==> (#[trigger] ollama_role(history[i].role)) is Some
}

/// The messages sent when `prompt` is asked after a sendable `history`.
pub open spec fn ollama_request(history: Seq<MessageView>, prompt: Seq<char>) -> Seq<(LLMProviderMessageRole, Seq<char>)> {
    history.map_values(
        |m: MessageView| (ollama_role(m.role).unwrap(), text_or_empty(m.content)),
    ).push((LLMProviderMessageRole::User, prompt))
}

/// The messages sent when `prompt` is asked after `history`; refused when
/// a message of the history was written by a tool.
pub fn ask_messages(history: &[Message], prompt: &str) -> (r: Result<
    Vec<LLMProviderMessage>,
    OllamaAskError,
>)
    ensures
        match r {
            Ok(ms) => sendable(message_views(history@)) && message_pairs(ms@)
                == ollama_request(message_views(history@), prompt@),
            Err(e) => e is UnsupportedRole && !sendable(message_views(history@)),
        },
{
    let mut messages: Vec<LLMProviderMessage> = Vec::new();
    let ghost hv = message_views(history@);
    let mut i: usize = 0;
    while i < history.len()
        invariant
            i <= history.len(),
            hv == message_views(history@),
            sendable(hv.take(i as int)),
            message_pairs(messages@) == hv.take(i as int).map_values(
                |m: MessageView| (ollama_role(m.role).unwrap(), text_or_empty(m.content)),
            ),
        decreases history.len() - i,
    {
        let m = &history[i];
        assert(hv[i as int] == m@);
        let role = match m.role() {
            Role::System => LLMProviderMessageRole::System,
            Role::User => LLMProviderMessageRole::User,
            Role::Assistant => LLMProviderMessageRole::Assistant,
            Role::Tools => {
                assert(ollama_role(hv[i as int].role) is None);
                return Err(OllamaAskError::UnsupportedRole(Role::Tools));
            },
        };
        let text = match m.content() {
            Some(c) => c,
            None => "",
        };
        proof {
            assert(""@ =~= Seq::<char>::empty()) by {
                reveal_strlit("");
            }
        }
        let ghost old = messages@;
        messages.push(LLMProviderMessage::new(role, text));
        assert(hv.take(i + 1) =~= hv.take(i as int).push(m@));
        assert(message_pairs(messages@) =~= message_pairs(old).push(
            (ollama_role(m@.role).unwrap(), text_or_empty(m@.content)),
        ));
        assert(hv.take(i + 1).map_values(
            |m: MessageView| (ollama_role(m.role).unwrap(), text_or_empty(m.content)),
        ) =~= hv.take(i as int).map_values(
            |m: MessageView| (ollama_role(m.role).unwrap(), text_or_empty(m.content)),
        ).push((ollama_role(m@.role).unwrap(), text_or_empty(m@.content))));
        assert(sendable(hv.take(i + 1))) by {
            assert forall|j: int| 0 <= j < hv.take(i + 1).len() implies (#[trigger] ollama_role(
                hv.take(i + 1)[j].role,
            )) is Some by {
                if j < i {
                    assert(hv.take(i + 1)[j] == hv.take(i as int)[j]);
                }
            }
        }
        i = i + 1;
    }
    assert(hv.take(history.len() as int) =~= hv);
    let ghost old = messages@;
    messages.push(LLMProviderMessage::new(LLMProviderMessageRole::User, prompt));
    assert(message_pairs(messages@) =~= message_pairs(old).push(
        (LLMProviderMessageRole::User, prompt@),
    ));
    Ok(messages)
}

/// The role of a reply message.
#[derive(Clone, Copy, Debug, PartialEq, Eq, Structural)]
pub enum OllamaGenerateResponseRole {
    System,
    Assistant,
    User,
}

/// The name of a reply role.
pub open spec fn response_role_name(r: OllamaGenerateResponseRole) -> Seq<char> {
    match r {
        OllamaGenerateResponseRole::System => "system"@,
        OllamaGenerateResponseRole::Assistant => "assistant"@,
        OllamaGenerateResponseRole::User => "user"@,
    }
}

impl OllamaGenerateResponseRole {
    pub fn to_string(&self) -> (r: String)
        ensures
            r@ == response_role_name(*self),
    {
        match self {
            OllamaGenerateResponseRole::System => String::from_str("system"),
            OllamaGenerateResponseRole::Assistant => String::from_str("assistant"),
            OllamaGenerateResponseRole::User => String::from_str("user"),
        }
    }
}

/// Why the model stopped writing.
#[derive(Clone, Copy, Debug, PartialEq, Eq, Structural)]
pub enum OllamaGenerateResponseFinishReason {
    Stop,
    Length,
    ToolCalls,
    ContentFilter,
    Error,
}

/// The name of a finish reason, as the protocol writes it.
pub open spec fn finish_reason_name(r: OllamaGenerateResponseFinishReason) -> Seq<char> {
    match r {
        OllamaGenerateResponseFinishReason::Stop => "stop"@,
        OllamaGenerateResponseFinishReason::Length => "length"@,
        OllamaGenerateResponseFinishReason::ToolCalls => "tool_calls"@,
        OllamaGenerateResponseFinishReason::ContentFilter => "content_filter"@,
        OllamaGenerateResponseFinishReason::Error => "error"@,
    }
}

impl OllamaGenerateResponseFinishReason {
    pub fn to_string(&self) -> (r: String)
        ensures
            r@ == finish_reason_name(*self),
    {
        match self {
            OllamaGenerateResponseFinishReason::Stop => String::from_str("stop"),
            OllamaGenerateResponseFinishReason::Length => String::from_str("length"),
            OllamaGenerateResponseFinishReason::ToolCalls => String::from_str("tool_calls"),
            OllamaGenerateResponseFinishReason::ContentFilter => String::from_str("content_filter"),
            OllamaGenerateResponseFinishReason::Error => String::from_str("error"),
        }
    }
}

/// The message of a completion choice.
#[derive(Debug)]
pub struct OllamaGenerateResponseMessage {
    pub role: OllamaGenerateResponseRole,
    pub content: String,
}

/// One completion choice of a reply.
#[derive(Debug)]
pub struct OllamaGenerateResponseChoice {
    pub index: usize,
    pub finish_reason: OllamaGenerateResponseFinishReason,
    pub message: OllamaGenerateResponseMessage,
}

/// The reply to a chat completion request.
#[derive(Debug)]
pub struct OllamaGenerateResponse {
    pub model: String,
    pub choices: Vec<OllamaGenerateResponseChoice>,
}

/// The answer of a reply: the text of its first choice.
pub fn answer_from_response(resp: &OllamaGenerateResponse) -> (r: Result<LLMAnswer, OllamaAskError>)
    ensures
        resp.choices@.len() == 0 ==> r == Err::<LLMAnswer, OllamaAskError>(
            OllamaAskError::NoResponse,
        ),
        resp.choices@.len() > 0 ==> (r matches Ok(a) && a@ == resp.choices@[0].message.content@),
{
    if resp.choices.len() == 0 {
        return Err(OllamaAskError::NoResponse);
    }
    Ok(LLMAnswer::new(resp.choices[0].message.content.as_str()))
}

/// The text of an error.
pub open spec fn ollama_error_message(e: OllamaAskError) -> Seq<char> {
    match e {
        OllamaAskError::UnsupportedRole(role) => "Ollama cannot take a message with role: "@
            + crate::entities::role::role_name(role),
        OllamaAskError::NoResponse => "No response from LLM"@,
    }
}

impl OllamaAskError {
    pub fn message(&self) -> (r: String)
        ensures
            r@ == ollama_error_message(*self),
    {
        match self {
            OllamaAskError::UnsupportedRole(role) => {
                let mut s = String::from_str("Ollama cannot take a message with role: ");
                let name = role.to_string();
                s.append(name.as_str());
                s
            },
            OllamaAskError::NoResponse => String::from_str("No response from LLM"),
        }
    }
}

/// The model at the chosen index of the listed models; `None` when the
/// server gives no list or the index names no model.
pub fn select_model(models: &ModelsResponse, idx: usize) -> (r: Option<String>)
    ensures
        match models {
            ModelsResponse::Models(v) => if idx < v@.len() {
                r matches Some(m) && m@ == v@[idx as int]@
            } else {
                r is None
            },
            ModelsResponse::IntentionallyNoModels => r is None,
        },
{
    match models {
        ModelsResponse::Models(v) => {
            if idx < v.len() {
                Some(v[idx].clone())
            } else {
                None
            }
        },
        ModelsResponse::IntentionallyNoModels => None,
    }
}

} // verus!
