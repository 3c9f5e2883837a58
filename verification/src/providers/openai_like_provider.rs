//! A provider that speaks the OpenAI chat completions protocol with tools:
//! its configuration, the messages it sends, and the conversation that
//! alternates completions and tool calls until the model answers.
use vstd::prelude::*;

use crate::describe::{describe_provider, provider_description};
use crate::entities::message::{message_views, plain_message, tool_call_views, Message, MessageView};
use crate::entities::proxy::{opt_proxy_scheme, opt_proxy_view, LLMProxy};
use crate::entities::role::{role_name, Role};
use crate::entities::temperature::{temperature_name, Temperature};
use crate::entities::tool_call::{clone_tool_calls, ToolCall, ToolCallView};
use crate::entities::system_prompt::string_views;
use crate::text::{
    endpoint_url_with, endpoint_with_path, join_lines, join_lines_chars, opt_as_str, opt_str_view,
    opt_view, str_chars, string_from_chars, views,
};

verus! {

/// The most completion requests made for one question.
pub const MAX_TOOL_ITERATIONS: usize = 8;

/// A configured OpenAI-compatible provider.
#[derive(Debug)]
pub struct OpenAILikeProvider {
    name: String,
    endpoint_url: String,
    auth_token_env_key: Option<String>,
    model: String,
    proxy: Option<LLMProxy>,
    temperature: Option<Temperature>,
}

/// What an OpenAI-compatible provider's configuration holds.
pub struct OpenAILikeProviderView {
    pub name: Seq<char>,
    pub endpoint_url: Seq<char>,
    pub auth_token_env_key: Option<Seq<char>>,
    pub model: Seq<char>,
    pub proxy: Option<Seq<char>>,
    pub temperature: Option<Temperature>,
}

impl View for OpenAILikeProvider {
    type V = OpenAILikeProviderView;

    closed spec fn view(&self) -> OpenAILikeProviderView {
        OpenAILikeProviderView {
            name: self.name@,
            endpoint_url: self.endpoint_url@,
            auth_token_env_key: opt_view(self.auth_token_env_key),
            model: self.model@,
            proxy: opt_proxy_view(self.proxy),
            temperature: self.temperature,
        }
    }
}

/// The temperature a provider asks for: the configured one, else the
/// default.
pub open spec fn effective_temperature(t: Option<Temperature>) -> Temperature {
    match t {
        Some(t) => t,
        None => Temperature::Explaining,
    }
}

impl Clone for OpenAILikeProvider {
    fn clone(&self) -> (r: Self)
        ensures
            r@ == self@,
    {
        OpenAILikeProvider {
            name: self.name.clone(),
            endpoint_url: self.endpoint_url.clone(),
            auth_token_env_key: crate::text::clone_opt_string(&self.auth_token_env_key),
            model: self.model.clone(),
            proxy: crate::entities::proxy::clone_opt_proxy(&self.proxy),
            temperature: self.temperature,
        }
    }
}

impl OpenAILikeProvider {
    pub fn new(
        name: String,
        endpoint_url: String,
        auth_token_env_key: Option<String>,
        model: String,
        proxy: Option<LLMProxy>,
        temperature: Option<Temperature>,
    ) -> (r: Self)
        ensures
            r@ == (OpenAILikeProviderView {
                name: name@,
                endpoint_url: endpoint_url@,
                auth_token_env_key: opt_view(auth_token_env_key),
                model: model@,
                proxy: opt_proxy_view(proxy),
                temperature,
            }),
    {
        OpenAILikeProvider { name, endpoint_url, auth_token_env_key, model, proxy, temperature }
    }

    pub fn name(&self) -> (r: &str)
        ensures
            r@ == self@.name,
    {
        self.name.as_str()
    }

    pub fn endpoint_url(&self) -> (r: &str)
        ensures
            r@ == self@.endpoint_url,
    {
        self.endpoint_url.as_str()
    }

    /// The name of the environment variable that holds the token.
    pub fn auth_token_env_key(&self) -> (r: Option<&str>)
        ensures
            opt_str_view(r) == self@.auth_token_env_key,
    {
        opt_as_str(&self.auth_token_env_key)
    }

    pub fn model(&self) -> (r: &str)
        ensures
            r@ == self@.model,
    {
        self.model.as_str()
    }

    /// The configured temperature, or the default one.
    pub fn temperature(&self) -> (r: Temperature)
        ensures
            r == effective_temperature(self@.temperature),
    {
        match self.temperature {
            Some(t) => t,
            None => Temperature::default(),
        }
    }

    /// The temperature set in the configuration, if any.
    pub fn configured_temperature(&self) -> (r: Option<Temperature>)
        ensures
            r == self@.temperature,
    {
        self.temperature
    }

    pub fn proxy(&self) -> (r: Option<&LLMProxy>)
        ensures
            match r {
                Some(p) => self@.proxy == Some(p@),
                None => self@.proxy is None,
            },
    {
        match &self.proxy {
            Some(p) => Some(p),
            None => None,
        }
    }

    /// The description shown when the provider is listed.
    pub fn describe(&self) -> (r: String)
        ensures
            r@ == provider_description(
                self@.name,
                self@.model,
                self@.endpoint_url,
                self@.auth_token_env_key,
                Some(temperature_name(effective_temperature(self@.temperature))),
                self@.proxy,
            ),
    {
        let temperature = self.temperature().to_string();
        describe_provider(
            self.name.as_str(),
            self.model.as_str(),
            self.endpoint_url.as_str(),
            opt_as_str(&self.auth_token_env_key),
            Some(temperature.as_str()),
            opt_proxy_scheme(&self.proxy),
        )
    }

    /// Where chat completion requests are sent.
    pub fn completions_url(&self) -> (r: String)
        ensures
            r@ == endpoint_url_with(self@.endpoint_url, true, "/chat/completions"@),
    {
        endpoint_with_path(self.endpoint_url.as_str(), true, "/chat/completions")
    }

    /// The messages that answer the tool calls: one for each call that names
    /// a function, in order, from the tool's results followed by its errors,
    /// joined with `'\n'`. `outcomes[i]` is what the tool named by
    /// `tool_calls[i]` gave.
    pub fn process_tools(
        &self,
        tool_calls: &[ToolCall],
        outcomes: &[(Vec<String>, Vec<String>)],
    ) -> (r: Vec<Message>)
        requires
            outcomes@.len() == tool_calls@.len(),
        ensures
            message_views(r@) == tool_messages(
                tool_call_views(tool_calls@),
                outcome_views(outcomes@),
            ),
    {
        let mut results: Vec<Message> = Vec::new();
        let mut i: usize = 0;
        let ghost calls = tool_call_views(tool_calls@);
        let ghost outs = outcome_views(outcomes@);
        while i < tool_calls.len()
            invariant
                i <= tool_calls.len(),
                outcomes@.len() == tool_calls@.len(),
                calls == tool_call_views(tool_calls@),
                outs == outcome_views(outcomes@),
                message_views(results@) == tool_messages(calls.take(i as int), outs.take(i as int)),
            decreases tool_calls.len() - i,
        {
            let tool_call = &tool_calls[i];
            assert(calls.take(i + 1).drop_last() =~= calls.take(i as int));
            assert(outs.take(i + 1).drop_last() =~= outs.take(i as int));
            assert(calls.take(i + 1).last() == tool_call@);
            assert(outs.take(i + 1).last() == outs[i as int]);
            match tool_call.function() {
                None => {},
                Some(_function) => {
                    let (tool_results, tool_errors) = (&outcomes[i].0, &outcomes[i].1);
                    let text = join_outcome(tool_results, tool_errors);
                    let id = String::from_str(tool_call.id());
                    let message = Message::new(Role::Tools, text.as_str()).with_tool_call_id(id);
                    let ghost old = results@;
                    results.push(message);
                    assert(message_views(results@) =~= message_views(old).push(
                        tool_message(tool_call@, outs[i as int]),
                    ));
                },
            }
            i = i + 1;
        }
        assert(calls.take(tool_calls.len() as int) =~= calls);
        assert(outs.take(tool_calls.len() as int) =~= outs);
        results
    }
}

/// What one tool gave: its results and its errors.
pub open spec fn outcome_views(outcomes: Seq<(Vec<String>, Vec<String>)>) -> Seq<
    (Seq<Seq<char>>, Seq<Seq<char>>),
> {
    outcomes.map_values(
        |o: (Vec<String>, Vec<String>)| (string_views(o.0@), string_views(o.1@)),
    )
}

/// The message that answers one tool call.
pub open spec fn tool_message(call: ToolCallView, outcome: (Seq<Seq<char>>, Seq<Seq<char>>)) -> MessageView {
    MessageView {
        role: Role::Tools,
        content: Some(join_lines(outcome.0 + outcome.1)),
        tool_call_id: Some(call.id),
        tool_calls: None,
    }
}

/// The messages that answer the tool calls that name a function, in order.
pub open spec fn tool_messages(
    calls: Seq<ToolCallView>,
    outcomes: Seq<(Seq<Seq<char>>, Seq<Seq<char>>)>,
) -> Seq<MessageView>
    decreases calls.len(),
{
    if calls.len() == 0 {
        seq![]
    } else {
        let rest = tool_messages(calls.drop_last(), outcomes.drop_last());
        if calls.last().function is Some {
            rest.push(tool_message(calls.last(), outcomes.last()))
        } else {
            rest
        }
    }
}

/// The results followed by the errors, joined with `'\n'`.
fn join_outcome(results: &Vec<String>, errors: &Vec<String>) -> (r: String)
    ensures
        r@ == join_lines(string_views(results@) + string_views(errors@)),
{
    let mut lines: Vec<Vec<char>> = Vec::new();
    let mut i: usize = 0;
    while i < results.len()
        invariant
            i <= results.len(),
            views(lines@) == string_views(results@).take(i as int),
        decreases results.len() - i,
    {
        let ghost old = lines@;
        lines.push(str_chars(results[i].as_str()));
        assert(views(lines@) =~= views(old).push(results@[i as int]@));
        assert(string_views(results@).take(i + 1) =~= string_views(results@).take(i as int).push(
            results@[i as int]@,
        ));
        i = i + 1;
    }
    assert(string_views(results@).take(results.len() as int) =~= string_views(results@));
    let mut j: usize = 0;
    while j < errors.len()
        invariant
            j <= errors.len(),
            views(lines@) == string_views(results@) + string_views(errors@).take(j as int),
        decreases errors.len() - j,
    {
        let ghost old = lines@;
        lines.push(str_chars(errors[j].as_str()));
        assert(views(lines@) =~= views(old).push(errors@[j as int]@));
        assert(string_views(errors@).take(j + 1) =~= string_views(errors@).take(j as int).push(
            errors@[j as int]@,
        ));
        j = j + 1;
    }
    assert(string_views(errors@).take(errors.len() as int) =~= string_views(errors@));
    let joined = join_lines_chars(&lines);
    string_from_chars(joined.as_slice())
}

/// Where the list of models of an endpoint is requested.
pub fn models_url(endpoint_url: &str) -> (r: String)
    ensures
        r@ == endpoint_url_with(endpoint_url@, true, "/models"@),
{
    endpoint_with_path(endpoint_url, true, "/models")
}

/// Why the model stopped writing.
#[derive(Clone, Copy, Debug, PartialEq, Eq, Structural)]
pub enum OpenAILikeProviderGenerateResponseFinishReason {
    Stop,
    Length,
    ToolCalls,
    ContentFilter,
    Error,
}

/// The name of a finish reason, as the protocol writes it.
pub open spec fn finish_reason_name(r: OpenAILikeProviderGenerateResponseFinishReason) -> Seq<char> {
    match r {
        OpenAILikeProviderGenerateResponseFinishReason::Stop => "stop"@,
        OpenAILikeProviderGenerateResponseFinishReason::Length => "length"@,
        OpenAILikeProviderGenerateResponseFinishReason::ToolCalls => "tool_calls"@,
        OpenAILikeProviderGenerateResponseFinishReason::ContentFilter => "content_filter"@,
        OpenAILikeProviderGenerateResponseFinishReason::Error => "error"@,
    }
}

impl OpenAILikeProviderGenerateResponseFinishReason {
    pub fn to_string(&self) -> (r: String)
        ensures
            r@ == finish_reason_name(*self),
    {
        match self {
            OpenAILikeProviderGenerateResponseFinishReason::Stop => String::from_str("stop"),
            OpenAILikeProviderGenerateResponseFinishReason::Length => String::from_str("length"),
            OpenAILikeProviderGenerateResponseFinishReason::ToolCalls => String::from_str(
                "tool_calls",
            ),
            OpenAILikeProviderGenerateResponseFinishReason::ContentFilter => String::from_str(
                "content_filter",
            ),
            OpenAILikeProviderGenerateResponseFinishReason::Error => String::from_str("error"),
        }
    }
}

/// The message of a completion choice.
#[derive(Debug)]
pub struct OpenAILikeProviderGenerateResponseMessage {
    pub role: Role,
    pub content: Option<String>,
    pub tool_calls: Option<Vec<ToolCall>>,
}

/// One completion choice of a reply.
#[derive(Debug)]
pub struct OpenAILikeProviderGenerateResponseChoice {
    pub finish_reason: OpenAILikeProviderGenerateResponseFinishReason,
    pub message: OpenAILikeProviderGenerateResponseMessage,
}

/// The reply to a chat completion request.
#[derive(Debug)]
pub struct OpenAILikeProviderGenerateResponse {
    pub choices: Vec<OpenAILikeProviderGenerateResponseChoice>,
}

/// A message as it is sent to the provider.
#[derive(Debug)]
pub struct LLMProviderMessage {
    role: Role,
    content: Option<String>,
    tool_call_id: Option<String>,
    tool_calls: Option<Vec<ToolCall>>,
}

impl View for LLMProviderMessage {
    type V = MessageView;

    closed spec fn view(&self) -> MessageView {
        MessageView {
            role: self.role,
            content: opt_view(self.content),
            tool_call_id: opt_view(self.tool_call_id),
            tool_calls: match self.tool_calls {
                Some(v) => Some(tool_call_views(v@)),
                None => None,
            },
        }
    }
}

impl LLMProviderMessage {
    /// The message as it is sent: the same role, text, tool call id and
    /// tool calls.
    pub fn from(value: &Message) -> (r: Self)
        ensures
            r@ == value@,
    {
        let tool_calls = match value.tool_calls() {
            Some(calls) => Some(clone_tool_calls(calls)),
            None => None,
        };
        LLMProviderMessage {
            role: *value.role(),
            content: crate::text::opt_to_string(value.content()),
            tool_call_id: crate::text::opt_to_string(value.tool_call_id()),
            tool_calls,
        }
    }

    pub fn role(&self) -> (r: Role)
        ensures
            r == self@.role,
    {
        self.role
    }

    pub fn content(&self) -> (r: Option<&str>)
        ensures
            opt_str_view(r) == self@.content,
    {
        opt_as_str(&self.content)
    }

    pub fn tool_call_id(&self) -> (r: Option<&str>)
        ensures
            opt_str_view(r) == self@.tool_call_id,
    {
        opt_as_str(&self.tool_call_id)
    }

    pub fn tool_calls(&self) -> (r: Option<&[ToolCall]>)
        ensures
            match r {
                Some(s) => self@.tool_calls == Some(tool_call_views(s@)),
                None => self@.tool_calls is None,
            },
    {
        match &self.tool_calls {
            Some(v) => Some(v.as_slice()),
            None => None,
        }
    }
}

/// The messages of a request: the whole history, in order.
pub fn request_messages(history: &[Message]) -> (r: Vec<LLMProviderMessage>)
    ensures
        r@.len() == history@.len(),
        forall|i: int| 0 <= i < history@.len() ==> #[trigger] r@[i]@ == history@[i]@,
{
    let mut r: Vec<LLMProviderMessage> = Vec::new();
    let mut i: usize = 0;
    while i < history.len()
        invariant
            i <= history.len(),
            r@.len() == i,
            forall|j: int| 0 <= j < i ==> #[trigger] r@[j]@ == history@[j]@,
        decreases history.len() - i,
    {
        r.push(LLMProviderMessage::from(&history[i]));
        i = i + 1;
    }
    r
}

/// A JSON value, carried through as it is: here, a tool definition.
#[verifier::external_type_specification]
#[verifier::external_body]
pub struct ExJsonValue(serde_json::Value);

/// How the model may pick tools.
#[derive(Clone, Copy, Debug, PartialEq, Eq, Structural)]
pub enum ToolChoice {
    /// The model decides whether to call a tool.
    Auto,
}

impl ToolChoice {
    /// The choice's name, as the protocol writes it.
    pub fn to_string(&self) -> (r: String)
        ensures
            r@ == "auto"@,
    {
        String::from_str("auto")
    }
}

/// The views of request messages.
pub open spec fn provider_message_views(ms: Seq<LLMProviderMessage>) -> Seq<MessageView> {
    ms.map_values(|m: LLMProviderMessage| m@)
}

/// The body of a chat completion request. The temperature is kept as the
/// setting; its number is written when the body is serialized.
#[derive(Debug)]
pub struct LLMProviderRequestBody {
    model: String,
    messages: Vec<LLMProviderMessage>,
    stream: bool,
    temperature: Temperature,
    tools: Vec<serde_json::Value>,
    tool_choice: ToolChoice,
}

/// What a request body holds.
pub struct RequestBodyView {
    pub model: Seq<char>,
    pub messages: Seq<MessageView>,
    pub stream: bool,
    pub temperature: Temperature,
    pub tools: Seq<serde_json::Value>,
    pub tool_choice: ToolChoice,
}

impl View for LLMProviderRequestBody {
    type V = RequestBodyView;

    closed spec fn view(&self) -> RequestBodyView {
        RequestBodyView {
            model: self.model@,
            messages: provider_message_views(self.messages@),
            stream: self.stream,
            temperature: self.temperature,
            tools: self.tools@,
            tool_choice: self.tool_choice,
        }
    }
}

impl LLMProviderRequestBody {
    /// A body that lets the model pick among the given tools.
    pub fn new(
        model: &str,
        messages: Vec<LLMProviderMessage>,
        tools: Vec<serde_json::Value>,
        temperature: Temperature,
        stream: bool,
    ) -> (r: Self)
        ensures
            r@ == (RequestBodyView {
                model: model@,
                messages: provider_message_views(messages@),
                stream,
                temperature,
                tools: tools@,
                tool_choice: ToolChoice::Auto,
            }),
    {
        LLMProviderRequestBody {
            model: String::from_str(model),
            messages,
            tools,
            tool_choice: ToolChoice::Auto,
            stream,
            temperature,
        }
    }

    pub fn model(&self) -> (r: &str)
        ensures
            r@ == self@.model,
    {
        self.model.as_str()
    }

    pub fn messages(&self) -> (r: &[LLMProviderMessage])
        ensures
            provider_message_views(r@) == self@.messages,
    {
        self.messages.as_slice()
    }

    pub fn stream(&self) -> (r: bool)
        ensures
            r == self@.stream,
    {
        self.stream
    }

    pub fn temperature(&self) -> (r: Temperature)
        ensures
            r == self@.temperature,
    {
        self.temperature
    }

    pub fn tools(&self) -> (r: &[serde_json::Value])
        ensures
            r@ == self@.tools,
    {
        self.tools.as_slice()
    }

    pub fn tool_choice(&self) -> (r: ToolChoice)
        ensures
            r == self@.tool_choice,
    {
        self.tool_choice
    }
}

impl OpenAILikeProvider {
    /// The body of the next completion request of a conversation: the
    /// provider's model and temperature, every message of the history in
    /// order, the tool definitions with the model free to pick among them,
    /// and no streaming.
    pub fn request_body(&self, history: &[Message], tools: Vec<serde_json::Value>) -> (r:
        LLMProviderRequestBody)
        ensures
            r@ == (RequestBodyView {
                model: self@.model,
                messages: message_views(history@),
                stream: false,
                temperature: effective_temperature(self@.temperature),
                tools: tools@,
                tool_choice: ToolChoice::Auto,
            }),
    {
        let messages = request_messages(history);
        assert(provider_message_views(messages@) =~= message_views(history@));
        LLMProviderRequestBody::new(self.model.as_str(), messages, tools, self.temperature(), false)
    }
}

/// The answer of the model, with the conversation that led to it.
#[derive(Debug)]
pub struct LLMAnswer {
    response: String,
    messages: Vec<Message>,
}

impl View for LLMAnswer {
    type V = (Seq<char>, Seq<MessageView>);

    closed spec fn view(&self) -> (Seq<char>, Seq<MessageView>) {
        (self.response@, message_views(self.messages@))
    }
}

impl LLMAnswer {
    pub fn new(response: &str, messages: Vec<Message>) -> (r: Self)
        ensures
            r@ == (response@, message_views(messages@)),
    {
        LLMAnswer { response: String::from_str(response), messages }
    }

    pub fn response(&self) -> (r: &str)
        ensures
            r@ == self@.0,
    {
        self.response.as_str()
    }

    pub fn messages(&self) -> (r: &[Message])
        ensures
            message_views(r@) == self@.1,
    {
        self.messages.as_slice()
    }
}

/// Why a question got no answer.
#[derive(Clone, Copy, Debug, PartialEq, Eq, Structural)]
pub enum AskError {
    /// The reply held no choice.
    NoResponse,
    /// The first choice was not written by the assistant.
    UnexpectedRole(Role),
    /// The model asked for tools but named none.
    EmptyToolCalls,
    /// The first choice stopped for another reason than an answer or tools.
    UnexpectedFinishReason(OpenAILikeProviderGenerateResponseFinishReason),
    /// The model kept asking for tools.
    TooManyToolCalls,
}

/// The text of an error.
pub open spec fn ask_error_message(e: AskError) -> Seq<char> {
    match e {
        AskError::NoResponse => "No response from model"@,
        AskError::UnexpectedRole(role) => "Unexpected LLM response role: "@ + role_name(role),
        AskError::EmptyToolCalls => "LLM requested tool calls but returned no tool calls"@,
        AskError::UnexpectedFinishReason(r) => "Unexpected LLM response: "@ + finish_reason_name(r),
        AskError::TooManyToolCalls => "Too many consecutive tool calls from LLM"@,
    }
}

impl AskError {
    pub fn message(&self) -> (r: String)
        ensures
            r@ == ask_error_message(*self),
    {
        match self {
            AskError::NoResponse => String::from_str("No response from model"),
            AskError::UnexpectedRole(role) => {
                let mut s = String::from_str("Unexpected LLM response role: ");
                let name = role.to_string();
                s.append(name.as_str());
                s
            },
            AskError::EmptyToolCalls => String::from_str(
                "LLM requested tool calls but returned no tool calls",
            ),
            AskError::UnexpectedFinishReason(reason) => {
                let mut s = String::from_str("Unexpected LLM response: ");
                let name = reason.to_string();
                s.append(name.as_str());
                s
            },
            AskError::TooManyToolCalls => String::from_str(
                "Too many consecutive tool calls from LLM",
            ),
        }
    }
}

/// What the HTTP status of a completion reply calls for.
#[derive(Clone, Copy, Debug, PartialEq, Eq, Structural)]
pub enum CompletionStatus {
    /// The reply holds a completion.
    Success,
    /// The server is rate limiting: the same request is sent again.
    Retry,
    /// The request failed.
    Failed,
}

/// What the HTTP status of a completion reply calls for.
pub fn classify_status(status: u16) -> (r: CompletionStatus)
    ensures
        status == 429 ==> r == CompletionStatus::Retry,
        status == 200 ==> r == CompletionStatus::Success,
        status != 429 && status != 200 ==> r == CompletionStatus::Failed,
{
    if status == 429 {
        CompletionStatus::Retry
    } else if status != 200 {
        CompletionStatus::Failed
    } else {
        CompletionStatus::Success
    }
}

/// What a reply leads to.
pub enum AskStep {
    /// The model answered.
    Answer(LLMAnswer),
    /// The model asks for these tool calls to be made.
    CallTools(Vec<ToolCall>),
}

/// What a step holds.
pub enum AskStepView {
    Answer(Seq<char>, Seq<MessageView>),
    CallTools(Seq<ToolCallView>),
}

/// The view of a step, or of the error in its place.
pub open spec fn step_view(r: Result<AskStep, AskError>) -> Result<AskStepView, AskError> {
    match r {
        Ok(AskStep::Answer(a)) => Ok(AskStepView::Answer(a@.0, a@.1)),
        Ok(AskStep::CallTools(calls)) => Ok(AskStepView::CallTools(tool_call_views(calls@))),
        Err(e) => Err(e),
    }
}

/// The text of an optional content, empty when there is none.
pub open spec fn content_or_empty(c: Option<Seq<char>>) -> Seq<char> {
    match c {
        Some(s) => s,
        None => seq![],
    }
}

/// What a reply leads to after `history`, and the history after it: an
/// answer that stopped normally is added to the history and returned with
/// it; a request for tools is added to the history and its calls returned;
/// anything else is an error and leaves the history as it was.
pub open spec fn step_of(history: Seq<MessageView>, resp: OpenAILikeProviderGenerateResponse) -> (
    Result<AskStepView, AskError>,
    Seq<MessageView>,
) {
    if resp.choices@.len() == 0 {
        (Err(AskError::NoResponse), history)
    } else {
        let choice = resp.choices@[0];
        let message = choice.message;
        if message.role != Role::Assistant {
            (Err(AskError::UnexpectedRole(message.role)), history)
        } else {
            match choice.finish_reason {
                OpenAILikeProviderGenerateResponseFinishReason::Stop => {
                    let text = content_or_empty(opt_view(message.content));
                    let h = history.push(plain_message(Role::Assistant, text));
                    (Ok(AskStepView::Answer(text, h)), h)
                },
                OpenAILikeProviderGenerateResponseFinishReason::ToolCalls => {
                    let calls = match message.tool_calls {
                        Some(v) => tool_call_views(v@),
                        None => seq![],
                    };
                    if calls.len() == 0 {
                        (Err(AskError::EmptyToolCalls), history)
                    } else {
                        let h = history.push(
                            MessageView {
                                role: Role::Assistant,
                                content: opt_view(message.content),
                                tool_call_id: None,
                                tool_calls: Some(calls),
                            },
                        );
                        (Ok(AskStepView::CallTools(calls)), h)
                    }
                },
                other => (Err(AskError::UnexpectedFinishReason(other)), history),
            }
        }
    }
}

/// When the first reply to a question is the assistant's answer, the
/// answer comes with the history, the question and the answer, in order.
pub proof fn lemma_direct_answer(
    history: Seq<MessageView>,
    prompt: Seq<char>,
    resp: OpenAILikeProviderGenerateResponse,
)
    requires
        resp.choices@.len() > 0,
        resp.choices@[0].message.role == Role::Assistant,
        resp.choices@[0].finish_reason == OpenAILikeProviderGenerateResponseFinishReason::Stop,
    ensures
        ({
            let text = content_or_empty(opt_view(resp.choices@[0].message.content));
            let h = history.push(plain_message(Role::User, prompt)).push(
                plain_message(Role::Assistant, text),
            );
            step_of(history.push(plain_message(Role::User, prompt)), resp) == (
                Ok::<AskStepView, AskError>(AskStepView::Answer(text, h)),
                h,
            )
        }),
{
}

/// A reply that asks for tools grows the history by the assistant's
/// request, and the tool messages then answer exactly the calls that name
/// a function, one each, in order.
pub proof fn lemma_tool_round(
    history: Seq<MessageView>,
    resp: OpenAILikeProviderGenerateResponse,
    outcomes: Seq<(Seq<Seq<char>>, Seq<Seq<char>>)>,
)
    requires
        step_of(history, resp).0 matches Ok(AskStepView::CallTools(calls)) && outcomes.len()
            == calls.len(),
    ensures
        ({
            let calls = step_of(history, resp).0->Ok_0->CallTools_0;
            &&& step_of(history, resp).1.len() == history.len() + 1
            &&& step_of(history, resp).1.drop_last() == history
            &&& step_of(history, resp).1.last().tool_calls == Some(calls)
            &&& step_of(history, resp).1.last().role == Role::Assistant
            &&& step_of(history, resp).1.last().content == opt_view(resp.choices@[0].message.content)
            &&& step_of(history, resp).1.last().tool_call_id is None
            &&& tool_messages(calls, outcomes).len() == calls.filter(
                |c: ToolCallView| c.function is Some,
            ).len()
        }),
{
    let calls = step_of(history, resp).0->Ok_0->CallTools_0;
    assert(step_of(history, resp).1.drop_last() =~= history);
    lemma_tool_messages_len(calls, outcomes);
}

/// A configured temperature is used as it is; the default, Explaining,
/// only stands in when none is configured.
pub proof fn lemma_configured_temperature_kept()
    ensures
        forall|t: Temperature| #[trigger] effective_temperature(Some(t)) == t,
        effective_temperature(None) == Temperature::default_value(),
{
}

/// Every message that answers a tool call is a tool's message, names the
/// call it answers, and carries the tool's text; the calls without a
/// function get no answer.
pub proof fn lemma_tool_messages_are_tools(
    calls: Seq<ToolCallView>,
    outcomes: Seq<(Seq<Seq<char>>, Seq<Seq<char>>)>,
)
    requires
        outcomes.len() == calls.len(),
    ensures
        forall|k: int|
            0 <= k < tool_messages(calls, outcomes).len() ==> {
                let m = #[trigger] tool_messages(calls, outcomes)[k];
                &&& m.role == Role::Tools
                &&& m.tool_calls is None
                &&& exists|i: int|
                    0 <= i < calls.len() && calls[i].function is Some && m.tool_call_id == Some(
                        calls[i].id,
                    ) && m.content == Some(join_lines(outcomes[i].0 + outcomes[i].1))
            },
    decreases calls.len(),
{
    if calls.len() > 0 {
        let rest_calls = calls.drop_last();
        let rest_outs = outcomes.drop_last();
        lemma_tool_messages_are_tools(rest_calls, rest_outs);
        let ms = tool_messages(calls, outcomes);
        let rest = tool_messages(rest_calls, rest_outs);
        assert forall|k: int| 0 <= k < ms.len() implies {
            let m = #[trigger] ms[k];
            &&& m.role == Role::Tools
            &&& m.tool_calls is None
            &&& exists|i: int|
                0 <= i < calls.len() && calls[i].function is Some && m.tool_call_id == Some(
                    calls[i].id,
                ) && m.content == Some(join_lines(outcomes[i].0 + outcomes[i].1))
        } by {
            if k < rest.len() {
                assert(ms[k] == rest[k]);
                let i = choose|i: int|
                    0 <= i < rest_calls.len() && rest_calls[i].function is Some
                        && rest[k].tool_call_id == Some(rest_calls[i].id) && rest[k].content
                        == Some(join_lines(rest_outs[i].0 + rest_outs[i].1));
                assert(rest_calls[i] == calls[i]);
                assert(rest_outs[i] == outcomes[i]);
            } else {
                let i = calls.len() - 1;
                assert(calls[i] == calls.last());
                assert(outcomes[i] == outcomes.last());
            }
        }
    }
}

proof fn lemma_tool_messages_len(
    calls: Seq<ToolCallView>,
    outcomes: Seq<(Seq<Seq<char>>, Seq<Seq<char>>)>,
)
    ensures
        tool_messages(calls, outcomes).len() == calls.filter(
            |c: ToolCallView| c.function is Some,
        ).len(),
    decreases calls.len(),
{
    reveal_with_fuel(Seq::<_>::filter, 1);
    if calls.len() > 0 {
        lemma_tool_messages_len(calls.drop_last(), outcomes.drop_last());
    }
}

/// One question to the model, from the prompt to the answer: the history
/// sent so far and how many completions were requested.
pub struct Conversation {
    history: Vec<Message>,
    rounds: usize,
}

impl Conversation {
    /// The messages of the conversation.
    pub closed spec fn history_view(&self) -> Seq<MessageView> {
        message_views(self.history@)
    }

    /// How many replies the conversation has taken.
    pub closed spec fn rounds(&self) -> nat {
        self.rounds as nat
    }

    /// The conversation that asks `prompt` after `history`.
    pub fn start(prompt: &str, history: Vec<Message>) -> (r: Self)
        ensures
            r.history_view() == message_views(history@).push(plain_message(Role::User, prompt@)),
            r.rounds() == 0,
    {
        let mut history = history;
        let ghost old = history@;
        history.push(Message::new(Role::User, prompt));
        assert(message_views(history@) =~= message_views(old).push(
            plain_message(Role::User, prompt@),
        ));
        Conversation { history, rounds: 0 }
    }

    /// The messages to send for the next completion.
    pub fn history(&self) -> (r: &[Message])
        ensures
            message_views(r@) == self.history_view(),
    {
        self.history.as_slice()
    }

    /// Whether another completion may be requested.
    pub fn can_send(&self) -> (r: bool)
        ensures
            r == (self.rounds() < MAX_TOOL_ITERATIONS),
    {
        self.rounds < MAX_TOOL_ITERATIONS
    }

    /// Takes the reply to a completion request.
    pub fn on_response(&mut self, response: OpenAILikeProviderGenerateResponse) -> (r: Result<
        AskStep,
        AskError,
    >)
        requires
            old(self).rounds() < MAX_TOOL_ITERATIONS,
        ensures
            final(self).rounds() == old(self).rounds() + 1,
            (step_view(r), final(self).history_view()) == step_of(old(self).history_view(), response),
    {
        let ghost resp = response;
        self.rounds = self.rounds + 1;
        let mut response = response;
        if response.choices.len() == 0 {
            return Err(AskError::NoResponse);
        }
        let choice = response.choices.remove(0);
        assert(choice == resp.choices@[0]);
        let OpenAILikeProviderGenerateResponseChoice { finish_reason, message } = choice;
        let OpenAILikeProviderGenerateResponseMessage { role, content, tool_calls } = message;
        if role != Role::Assistant {
            return Err(AskError::UnexpectedRole(role));
        }
        match finish_reason {
            OpenAILikeProviderGenerateResponseFinishReason::Stop => {
                let text = match content {
                    Some(s) => s,
                    None => String::new(),
                };
                let ghost old = self.history@;
                self.history.push(Message::new(Role::Assistant, text.as_str()));
                assert(message_views(self.history@) =~= message_views(old).push(
                    plain_message(Role::Assistant, text@),
                ));
                let messages = crate::entities::message::clone_messages(self.history.as_slice());
                Ok(AskStep::Answer(LLMAnswer::new(text.as_str(), messages)))
            },
            OpenAILikeProviderGenerateResponseFinishReason::ToolCalls => {
                let calls = match tool_calls {
                    Some(v) => v,
                    None => Vec::new(),
                };
                if calls.len() == 0 {
                    return Err(AskError::EmptyToolCalls);
                }
                let copy = clone_tool_calls(calls.as_slice());
                let ghost old = self.history@;
                self.history.push(Message::assistant_tool_call(content, copy));
                assert(message_views(self.history@) =~= message_views(old).push(
                    self.history@.last()@,
                ));
                Ok(AskStep::CallTools(calls))
            },
            other => Err(AskError::UnexpectedFinishReason(other)),
        }
    }

    /// Adds the messages that answer the requested tool calls.
    pub fn on_tool_messages(&mut self, messages: Vec<Message>)
        ensures
            final(self).history_view() == old(self).history_view() + message_views(messages@),
            final(self).rounds() == old(self).rounds(),
    {
        let mut messages = messages;
        let ghost old_history = self.history@;
        let ghost added = messages@;
        self.history.append(&mut messages);
        assert(message_views(self.history@) =~= message_views(old_history) + message_views(added));
    }
}

} // verus!
