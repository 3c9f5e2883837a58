//! The values that the Ollama provider exchanges with its callers and with
//! the server.
use vstd::prelude::*;

verus! {

/// The answer of a provider.
#[derive(Debug)]
pub struct LLMAnswer {
    response: String,
}

impl View for LLMAnswer {
    type V = Seq<char>;

    closed spec fn view(&self) -> Seq<char> {
        self.response@
    }
}

impl LLMAnswer {
    pub fn new(response: &str) -> (r: Self)
        ensures
            r@ == response@,
    {
        LLMAnswer { response: String::from_str(response) }
    }

    pub fn response(&self) -> (r: &str)
        ensures
            r@ == self@,
    {
        self.response.as_str()
    }
}

/// The models that an endpoint offers.
#[derive(Debug)]
pub enum ModelsResponse {
    Models(Vec<String>),
    /// There are currently no providers without a public model list, but we
    /// keep this variant for flexibility.
    IntentionallyNoModels,
}

/// The author of a message, as Ollama names it.
#[derive(Clone, Copy, Debug, PartialEq, Eq, Structural)]
pub enum LLMProviderMessageRole {
    System,
    Assistant,
    User,
}

/// The name under which Ollama takes a role.
pub open spec fn provider_role_name(r: LLMProviderMessageRole) -> Seq<char> {
    match r {
        LLMProviderMessageRole::System => "system"@,
        LLMProviderMessageRole::Assistant => "assistant"@,
        LLMProviderMessageRole::User => "user"@,
    }
}

/// A message as it is sent to Ollama.
#[derive(Debug)]
pub struct LLMProviderMessage {
    role: LLMProviderMessageRole,
    content: String,
}

impl View for LLMProviderMessage {
    type V = (LLMProviderMessageRole, Seq<char>);

    closed spec fn view(&self) -> (LLMProviderMessageRole, Seq<char>) {
        (self.role, self.content@)
    }
}

impl LLMProviderMessage {
    pub fn new(role: LLMProviderMessageRole, content: &str) -> (r: Self)
        ensures
            r@ == (role, content@),
    {
        LLMProviderMessage { role, content: String::from_str(content) }
    }

    pub fn role(&self) -> (r: LLMProviderMessageRole)
        ensures
            r == self@.0,
    {
        self.role
    }

    pub fn content(&self) -> (r: &str)
        ensures
            r@ == self@.1,
    {
        self.content.as_str()
    }
}

/// The views of request messages.
pub open spec fn message_pairs(ms: Seq<LLMProviderMessage>) -> Seq<(LLMProviderMessageRole, Seq<char>)> {
    ms.map_values(|m: LLMProviderMessage| m@)
}

/// The body of a chat completion request to Ollama.
#[derive(Debug)]
pub struct LLMProviderRequestBody {
    model: String,
    messages: Vec<LLMProviderMessage>,
    stream: bool,
}

/// What a request body holds.
pub struct RequestBodyView {
    pub model: Seq<char>,
    pub messages: Seq<(LLMProviderMessageRole, Seq<char>)>,
    pub stream: bool,
}

impl View for LLMProviderRequestBody {
    type V = RequestBodyView;

    closed spec fn view(&self) -> RequestBodyView {
        RequestBodyView { model: self.model@, messages: message_pairs(self.messages@), stream: self.stream }
    }
}

impl LLMProviderRequestBody {
    pub fn new(model: &str, messages: Vec<LLMProviderMessage>, stream: bool) -> (r: Self)
        ensures
            r@ == (RequestBodyView { model: model@, messages: message_pairs(messages@), stream }),
    {
        LLMProviderRequestBody { model: String::from_str(model), messages, stream }
    }

    pub fn model(&self) -> (r: &str)
        ensures
            r@ == self@.model,
    {
        self.model.as_str()
    }

    pub fn messages(&self) -> (r: &[LLMProviderMessage])
        ensures
            message_pairs(r@) == self@.messages,
    {
        self.messages.as_slice()
    }

    pub fn stream(&self) -> (r: bool)
        ensures
            r == self@.stream,
    {
        self.stream
    }
}

} // verus!
