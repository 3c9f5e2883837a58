//! A provider that speaks the OpenAI chat completions protocol without
//! tools: the request it builds and what it makes of the reply.
use vstd::prelude::*;

use crate::describe::{describe_provider, provider_description};
use crate::entities::message::{message_views, Message, MessageView};
use crate::entities::proxy::{opt_proxy_scheme, opt_proxy_view, LLMProxy};
use crate::entities::role::{role_name, Role};
use crate::text::{endpoint_url_with, endpoint_with_path, opt_as_str, opt_str_view, opt_view};

verus! {

/// A configured chat completions provider.
#[derive(Debug)]
pub struct BaseProvider {
    name: String,
    endpoint_url: String,
    auth_token_env_key: Option<String>,
    model: String,
    proxy: Option<LLMProxy>,
}

/// What a provider's configuration holds.
pub struct ProviderView {
    pub name: Seq<char>,
    pub endpoint_url: Seq<char>,
    pub auth_token_env_key: Option<Seq<char>>,
    pub model: Seq<char>,
    pub proxy: Option<Seq<char>>,
}

impl View for BaseProvider {
    type V = ProviderView;

    closed spec fn view(&self) -> ProviderView {
        ProviderView {
            name: self.name@,
            endpoint_url: self.endpoint_url@,
            auth_token_env_key: opt_view(self.auth_token_env_key),
            model: self.model@,
            proxy: opt_proxy_view(self.proxy),
        }
    }
}

/// The path under the endpoint that takes chat completion requests.
pub open spec fn completions_path() -> Seq<char> {
    "/chat/completions"@
}

/// The path under the endpoint that lists the models.
pub open spec fn models_path() -> Seq<char> {
    "/models"@
}

impl BaseProvider {
    pub fn new(
        name: String,
        endpoint_url: String,
        auth_token_env_key: Option<String>,
        model: String,
        proxy: Option<LLMProxy>,
    ) -> (r: Self)
        ensures
            r@ == (ProviderView {
                name: name@,
                endpoint_url: endpoint_url@,
                auth_token_env_key: opt_view(auth_token_env_key),
                model: model@,
                proxy: opt_proxy_view(proxy),
            }),
    {
        BaseProvider { name, endpoint_url, auth_token_env_key, model, proxy }
    }

    pub fn name(&self) -> (r: &str)
        ensures
            r@ == self@.name,
    {
        self.name.as_str()
    }

    pub fn endpoint_url(&self) -> (r: &str)
        ensures
            r@ == self@.endpoint_url,
    {
        self.endpoint_url.as_str()
    }

    /// The name of the environment variable that holds the token.
    pub fn auth_token_env_key(&self) -> (r: Option<&str>)
        ensures
            opt_str_view(r) == self@.auth_token_env_key,
    {
        opt_as_str(&self.auth_token_env_key)
    }

    pub fn model(&self) -> (r: &str)
        ensures
            r@ == self@.model,
    {
        self.model.as_str()
    }

    pub fn proxy(&self) -> (r: Option<&LLMProxy>)
        ensures
            match r {
                Some(p) => self@.proxy == Some(p@),
                None => self@.proxy is None,
            },
    {
        match &self.proxy {
            Some(p) => Some(p),
            None => None,
        }
    }

    /// The description shown when the provider is listed.
    pub fn describe(&self) -> (r: String)
        ensures
            r@ == provider_description(
                self@.name,
                self@.model,
                self@.endpoint_url,
                self@.auth_token_env_key,
                None,
                self@.proxy,
            ),
    {
        describe_provider(
            self.name.as_str(),
            self.model.as_str(),
            self.endpoint_url.as_str(),
            opt_as_str(&self.auth_token_env_key),
            None,
            opt_proxy_scheme(&self.proxy),
        )
    }

    /// Where chat completion requests are sent.
    pub fn completions_url(&self) -> (r: String)
        ensures
            r@ == endpoint_url_with(self@.endpoint_url, true, completions_path()),
    {
        endpoint_with_path(self.endpoint_url.as_str(), true, "/chat/completions")
    }
}

/// Where the list of models of an endpoint is requested.
pub fn models_url(endpoint_url: &str) -> (r: String)
    ensures
        r@ == endpoint_url_with(endpoint_url@, true, models_path()),
{
    endpoint_with_path(endpoint_url, true, "/models")
}

/// A message as it is sent to the provider.
#[derive(Debug)]
pub struct LLMProviderMessage {
    role: Role,
    content: String,
}

impl View for LLMProviderMessage {
    type V = (Role, Seq<char>);

    closed spec fn view(&self) -> (Role, Seq<char>) {
        (self.role, self.content@)
    }
}

impl LLMProviderMessage {
    pub fn new(role: Role, content: &str) -> (r: Self)
        ensures
            r@ == (role, content@),
    {
        LLMProviderMessage { role, content: String::from_str(content) }
    }

    pub fn role(&self) -> (r: Role)
        ensures
            r == self@.0,
    {
        self.role
    }

    pub fn content(&self) -> (r: &str)
        ensures
            r@ == self@.1,
    {
        self.content.as_str()
    }
}

/// The text of a message, empty when it has none.
pub open spec fn text_or_empty(content: Option<Seq<char>>) -> Seq<char> {
    match content {
        Some(c) => c,
        None => seq![],
    }
}

/// How a history message is sent: its role and its text.
pub open spec fn wire_message(m: MessageView) -> (Role, Seq<char>) {
    (m.role, text_or_empty(m.content))
}

/// The messages of a request: the history, in order, then the prompt as
/// the user's message.
pub open spec fn request_messages(history: Seq<MessageView>, prompt: Seq<char>) -> Seq<(Role, Seq<char>)> {
    history.map_values(|m: MessageView| wire_message(m)).push((Role::User, prompt))
}

/// The views of request messages.
pub open spec fn wire_views(ms: Seq<LLMProviderMessage>) -> Seq<(Role, Seq<char>)> {
    ms.map_values(|m: LLMProviderMessage| m@)
}

/// The messages sent when `prompt` is asked after `history`.
pub fn ask_messages(history: &[Message], prompt: &str) -> (r: Vec<LLMProviderMessage>)
    ensures
        wire_views(r@) == request_messages(message_views(history@), prompt@),
{
    let mut messages: Vec<LLMProviderMessage> = Vec::new();
    let mut i: usize = 0;
    while i < history.len()
        invariant
            i <= history.len(),
            wire_views(messages@) == message_views(history@).take(i as int).map_values(
                |m: MessageView| wire_message(m),
            ),
        decreases history.len() - i,
    {
        let m = &history[i];
        let text = match m.content() {
            Some(c) => c,
            None => "",
        };
        proof {
            assert(""@ =~= Seq::<char>::empty()) by {
                reveal_strlit("");
            }
        }
        let ghost old = messages@;
        messages.push(LLMProviderMessage::new(*m.role(), text));
        assert(wire_views(messages@) =~= wire_views(old).push(wire_message(m@)));
        assert(message_views(history@).take(i + 1) =~= message_views(history@).take(i as int).push(
            m@,
        ));
        assert(message_views(history@).take(i + 1).map_values(|m: MessageView| wire_message(m))
            =~= message_views(history@).take(i as int).map_values(
            |m: MessageView| wire_message(m),
        ).push(wire_message(m@)));
        i = i + 1;
    }
    assert(message_views(history@).take(history.len() as int) =~= message_views(history@));
    let ghost old = messages@;
    messages.push(LLMProviderMessage::new(Role::User, prompt));
    assert(wire_views(messages@) =~= wire_views(old).push((Role::User, prompt@)));
    messages
}

/// The body of a chat completion request.
#[derive(Debug)]
pub struct LLMProviderRequestBody {
    model: String,
    messages: Vec<LLMProviderMessage>,
    stream: bool,
}

/// What a request body holds.
pub struct RequestBodyView {
    pub model: Seq<char>,
    pub messages: Seq<(Role, Seq<char>)>,
    pub stream: bool,
}

impl View for LLMProviderRequestBody {
    type V = RequestBodyView;

    closed spec fn view(&self) -> RequestBodyView {
        RequestBodyView { model: self.model@, messages: wire_views(self.messages@), stream: self.stream }
    }
}

impl LLMProviderRequestBody {
    pub fn new(model: &str, messages: Vec<LLMProviderMessage>, stream: bool) -> (r: Self)
        ensures
            r@ == (RequestBodyView { model: model@, messages: wire_views(messages@), stream }),
    {
        LLMProviderRequestBody { model: String::from_str(model), messages, stream }
    }

    pub fn model(&self) -> (r: &str)
        ensures
            r@ == self@.model,
    {
        self.model.as_str()
    }

    pub fn messages(&self) -> (r: &[LLMProviderMessage])
        ensures
            wire_views(r@) == self@.messages,
    {
        self.messages.as_slice()
    }

    pub fn stream(&self) -> (r: bool)
        ensures
            r == self@.stream,
    {
        self.stream
    }
}

impl BaseProvider {
    /// The body of the request that asks `prompt` after `history`: the
    /// provider's model, the history then the prompt as messages, and no
    /// streaming.
    pub fn request_body(&self, history: &[Message], prompt: &str) -> (r: LLMProviderRequestBody)
        ensures
            r@ == (RequestBodyView {
                model: self@.model,
                messages: request_messages(message_views(history@), prompt@),
                stream: false,
            }),
    {
        let messages = ask_messages(history, prompt);
        LLMProviderRequestBody::new(self.model.as_str(), messages, false)
    }
}

/// Whether a reply's HTTP status lets it be read: only 200 does; any other
/// status fails the request.
pub fn status_ok(status: u16) -> (r: bool)
    ensures
        r == (status == 200),
{
    status == 200
}

/// Why the model stopped writing.
#[derive(Clone, Copy, Debug, PartialEq, Eq, Structural)]
pub enum BaseProviderGenerateResponseFinishReason {
    Stop,
    Length,
    ToolCalls,
    ContentFilter,
    Error,
}

/// The name of a finish reason, as the protocol writes it.
pub open spec fn finish_reason_name(r: BaseProviderGenerateResponseFinishReason) -> Seq<char> {
    match r {
        BaseProviderGenerateResponseFinishReason::Stop => "stop"@,
        BaseProviderGenerateResponseFinishReason::Length => "length"@,
        BaseProviderGenerateResponseFinishReason::ToolCalls => "tool_calls"@,
        BaseProviderGenerateResponseFinishReason::ContentFilter => "content_filter"@,
        BaseProviderGenerateResponseFinishReason::Error => "error"@,
    }
}

impl BaseProviderGenerateResponseFinishReason {
    pub fn to_string(&self) -> (r: String)
        ensures
            r@ == finish_reason_name(*self),
    {
        match self {
            BaseProviderGenerateResponseFinishReason::Stop => String::from_str("stop"),
            BaseProviderGenerateResponseFinishReason::Length => String::from_str("length"),
            BaseProviderGenerateResponseFinishReason::ToolCalls => String::from_str("tool_calls"),
            BaseProviderGenerateResponseFinishReason::ContentFilter => String::from_str(
                "content_filter",
            ),
            BaseProviderGenerateResponseFinishReason::Error => String::from_str("error"),
        }
    }
}

/// The message of a completion choice.
#[derive(Debug)]
pub struct BaseGenerateResponseMessage {
    pub role: Role,
    pub content: String,
}

/// One completion choice of a reply.
#[derive(Debug)]
pub struct BaseGenerateResponseChoice {
    pub finish_reason: BaseProviderGenerateResponseFinishReason,
    pub message: BaseGenerateResponseMessage,
}

/// The reply to a chat completion request.
#[derive(Debug)]
pub struct BaseProviderGenerateResponse {
    pub choices: Vec<BaseGenerateResponseChoice>,
}

/// The answer of a provider.
#[derive(Debug)]
pub struct LLMAnswer {
    response: String,
}

impl View for LLMAnswer {
    type V = Seq<char>;

    closed spec fn view(&self) -> Seq<char> {
        self.response@
    }
}

impl LLMAnswer {
    pub fn new(response: &str) -> (r: Self)
        ensures
            r@ == response@,
    {
        LLMAnswer { response: String::from_str(response) }
    }

    pub fn response(&self) -> (r: &str)
        ensures
            r@ == self@,
    {
        self.response.as_str()
    }
}

/// Why a reply gave no answer.
#[derive(Clone, Copy, Debug, PartialEq, Eq, Structural)]
pub enum BaseAskError {
    /// The reply held no choice.
    NoResponse,
    /// The first choice did not stop normally.
    UnexpectedFinishReason(BaseProviderGenerateResponseFinishReason),
    /// The first choice was not written by the assistant.
    UnexpectedRole(Role),
}

/// The text of an error.
pub open spec fn ask_error_message(e: BaseAskError) -> Seq<char> {
    match e {
        BaseAskError::NoResponse => "No response from model"@,
        BaseAskError::UnexpectedFinishReason(r) => "Unexpected LLM response: "@ + finish_reason_name(
            r,
        ),
        BaseAskError::UnexpectedRole(role) => "Unexpected LLM response role: "@ + role_name(role),
    }
}

impl BaseAskError {
    pub fn message(&self) -> (r: String)
        ensures
            r@ == ask_error_message(*self),
    {
        match self {
            BaseAskError::NoResponse => String::from_str("No response from model"),
            BaseAskError::UnexpectedFinishReason(reason) => {
                let mut s = String::from_str("Unexpected LLM response: ");
                let name = reason.to_string();
                s.append(name.as_str());
                s
            },
            BaseAskError::UnexpectedRole(role) => {
                let mut s = String::from_str("Unexpected LLM response role: ");
                let name = role.to_string();
                s.append(name.as_str());
                s
            },
        }
    }
}

/// What a reply gives: the first choice's text when it stopped normally
/// and was written by the assistant.
pub open spec fn answer_of(resp: BaseProviderGenerateResponse) -> Result<Seq<char>, BaseAskError> {
    if resp.choices@.len() == 0 {
        Err(BaseAskError::NoResponse)
    } else {
        let choice = resp.choices@[0];
        if choice.finish_reason != BaseProviderGenerateResponseFinishReason::Stop {
            Err(BaseAskError::UnexpectedFinishReason(choice.finish_reason))
        } else if choice.message.role != Role::Assistant {
            Err(BaseAskError::UnexpectedRole(choice.message.role))
        } else {
            Ok(choice.message.content@)
        }
    }
}

/// The answer that a reply gives, or why it gives none.
pub fn answer_from_response(resp: &BaseProviderGenerateResponse) -> (r: Result<
    LLMAnswer,
    BaseAskError,
>)
    ensures
        match r {
            Ok(a) => answer_of(*resp) == Ok::<Seq<char>, BaseAskError>(a@),
            Err(e) => answer_of(*resp) == Err::<Seq<char>, BaseAskError>(e),
        },
{
    if resp.choices.len() == 0 {
        return Err(BaseAskError::NoResponse);
    }
    let choice = &resp.choices[0];
    if choice.finish_reason != BaseProviderGenerateResponseFinishReason::Stop {
        return Err(BaseAskError::UnexpectedFinishReason(choice.finish_reason));
    }
    if choice.message.role != Role::Assistant {
        return Err(BaseAskError::UnexpectedRole(choice.message.role));
    }
    Ok(LLMAnswer::new(choice.message.content.as_str()))
}

/// Why no model could be picked.
#[derive(Clone, Copy, Debug, PartialEq, Eq, Structural)]
pub enum ModelSelectionError {
    /// The endpoint lists no model.
    NoModels,
    /// The chosen index names no model.
    CannotSelectModel,
}

/// The text of a model selection error.
pub open spec fn model_selection_message(e: ModelSelectionError) -> Seq<char> {
    match e {
        ModelSelectionError::NoModels => "No models there"@,
        ModelSelectionError::CannotSelectModel => "Cannot select model"@,
    }
}

impl ModelSelectionError {
    pub fn message(&self) -> (r: String)
        ensures
            r@ == model_selection_message(*self),
    {
        match self {
            ModelSelectionError::NoModels => String::from_str("No models there"),
            ModelSelectionError::CannotSelectModel => String::from_str("Cannot select model"),
        }
    }
}

/// The model at the chosen index of the listed models.
pub fn select_model(models: &[String], idx: usize) -> (r: Result<String, ModelSelectionError>)
    ensures
        models@.len() == 0 ==> r == Err::<String, ModelSelectionError>(
            ModelSelectionError::NoModels,
        ),
        models@.len() > 0 && idx >= models@.len() ==> r == Err::<String, ModelSelectionError>(
            ModelSelectionError::CannotSelectModel,
        ),
        idx < models@.len() ==> (r matches Ok(m) && m@ == models@[idx as int]@),
{
    if models.len() == 0 {
        return Err(ModelSelectionError::NoModels);
    }
    if idx >= models.len() {
        return Err(ModelSelectionError::CannotSelectModel);
    }
    Ok(models[idx].clone())
}

} // verus!
