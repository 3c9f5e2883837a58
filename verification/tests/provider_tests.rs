use asq::entities::llm_provider_kind::{LLMProviderKind, LLMProviderKindOnly};
use asq::entities::message::Message;
use asq::entities::proxy::LLMProxy;
use asq::entities::role::Role;
use asq::entities::temperature::Temperature;
use asq::entities::tool_call::{ToolCall, ToolCallFunction};
use asq::providers::base_provider::{
    self, ask_messages, answer_from_response, select_model, BaseAskError,
    BaseGenerateResponseChoice, BaseGenerateResponseMessage, BaseProvider,
    BaseProviderGenerateResponse, BaseProviderGenerateResponseFinishReason, ModelSelectionError,
};
use asq::providers::duckduckgo::DuckDuckGoProvider;
use asq::providers::llm_provider::{LLMProviderMessageRole, ModelsResponse};
use asq::providers::ollama::{
    self, OllamaAskError, OllamaGenerateResponse, OllamaGenerateResponseChoice,
    OllamaGenerateResponseFinishReason, OllamaGenerateResponseMessage, OllamaGenerateResponseRole,
    OllamaProvider,
};
use asq::providers::openai_like_provider::{
    classify_status, AskError, AskStep, CompletionStatus, Conversation, LLMProviderMessage,
    OpenAILikeProvider, OpenAILikeProviderGenerateResponse,
    OpenAILikeProviderGenerateResponseChoice, OpenAILikeProviderGenerateResponseFinishReason,
    OpenAILikeProviderGenerateResponseMessage, MAX_TOOL_ITERATIONS,
};

fn openai(temperature: Option<Temperature>, proxy: Option<LLMProxy>) -> OpenAILikeProvider {
    OpenAILikeProvider::new(
        "Local".to_string(),
        " http://127.0.0.1:11434/v1/ ".to_string(),
        Some("OPENAI_KEY".to_string()),
        "gemma".to_string(),
        proxy,
        temperature,
    )
}

#[test]
fn openai_like_getters_and_urls() {
    let p = openai(None, None);
    assert_eq!(p.name(), "Local");
    assert_eq!(p.model(), "gemma");
    assert_eq!(p.auth_token_env_key(), Some("OPENAI_KEY"));
    assert_eq!(p.temperature(), Temperature::Explaining);
    assert!(p.proxy().is_none());
    assert_eq!(p.completions_url(), "http://127.0.0.1:11434/v1/chat/completions");
    assert_eq!(
        asq::providers::openai_like_provider::models_url("https://api.x.com/v1/"),
        "https://api.x.com/v1/models"
    );
}

#[test]
fn openai_like_describe() {
    let p = openai(Some(Temperature::Creative), Some(LLMProxy::new("socks5h://127.0.0.1:1080")));
    assert_eq!(
        p.describe(),
        "Name: Local\nModelID: gemma\nBase URL:  http://127.0.0.1:11434/v1/ \nAuth token env key: OPENAI_KEY\nModel temperature: Creative\nProxy: socks5h://127.0.0.1:1080\n"
    );
    let q = OpenAILikeProvider::new("a".into(), "u".into(), None, "m".into(), None, None);
    assert_eq!(
        q.describe(),
        "Name: a\nModelID: m\nBase URL: u\nAuth token env key: Not set\nModel temperature: Explaining\nProxy: Not set\n"
    );
}

#[test]
fn provider_kinds() {
    let k = LLMProviderKind::Gemini(openai(None, None));
    assert_eq!(k.kind_only(), LLMProviderKindOnly::Gemini);
    assert_eq!(k.to_string(), "Local");
    assert_eq!(k.describe(), k.provider().describe());
    assert_eq!(LLMProviderKindOnly::OpenAILike.to_string(), "OpenAI-like");
    assert_eq!(LLMProviderKindOnly::Openrouter.to_string(), "Openrouter");
    let c = k.clone();
    assert_eq!(c.kind_only(), LLMProviderKindOnly::Gemini);
    assert_eq!(c.provider().name(), "Local");
}

#[test]
fn base_provider_request_and_answer() {
    let p = BaseProvider::new(
        "Deepseek".into(),
        "https://api.deepseek.com".into(),
        Some("DEEPSEEK_KEY".into()),
        "deepseek-chat".into(),
        None,
    );
    assert_eq!(p.completions_url(), "https://api.deepseek.com/chat/completions");
    assert_eq!(base_provider::models_url("https://openrouter.ai/api/v1"), "https://openrouter.ai/api/v1/models");
    assert_eq!(
        p.describe(),
        "Name: Deepseek\nModelID: deepseek-chat\nBase URL: https://api.deepseek.com\nAuth token env key: DEEPSEEK_KEY\nProxy: Not set\n"
    );
    let history = vec![
        Message::new(Role::User, "hi"),
        Message::assistant_tool_call(None, vec![]),
    ];
    let ms = ask_messages(&history, "question");
    assert_eq!(ms.len(), 3);
    assert_eq!((ms[0].role(), ms[0].content()), (Role::User, "hi"));
    assert_eq!((ms[1].role(), ms[1].content()), (Role::Assistant, ""));
    assert_eq!((ms[2].role(), ms[2].content()), (Role::User, "question"));
}

fn base_response(reason: BaseProviderGenerateResponseFinishReason, role: Role) -> BaseProviderGenerateResponse {
    BaseProviderGenerateResponse {
        choices: vec![BaseGenerateResponseChoice {
            finish_reason: reason,
            message: BaseGenerateResponseMessage { role, content: "42".into() },
        }],
    }
}

#[test]
fn base_answer_cases() {
    let ok = answer_from_response(&base_response(BaseProviderGenerateResponseFinishReason::Stop, Role::Assistant)).unwrap();
    assert_eq!(ok.response(), "42");
    let e = answer_from_response(&base_response(BaseProviderGenerateResponseFinishReason::Length, Role::Assistant)).unwrap_err();
    assert_eq!(e, BaseAskError::UnexpectedFinishReason(BaseProviderGenerateResponseFinishReason::Length));
    assert_eq!(e.message(), "Unexpected LLM response: length");
    let e = answer_from_response(&base_response(BaseProviderGenerateResponseFinishReason::Stop, Role::User)).unwrap_err();
    assert_eq!(e, BaseAskError::UnexpectedRole(Role::User));
    assert_eq!(e.message(), "Unexpected LLM response role: user");
    let e = answer_from_response(&BaseProviderGenerateResponse { choices: vec![] }).unwrap_err();
    assert_eq!(e, BaseAskError::NoResponse);
    assert_eq!(e.message(), "No response from model");
}

#[test]
fn model_selection() {
    let models = vec!["a".to_string(), "b".to_string()];
    assert_eq!(select_model(&models, 1), Ok("b".to_string()));
    assert_eq!(select_model(&models, 2), Err(ModelSelectionError::CannotSelectModel));
    assert_eq!(select_model(&[], 0), Err(ModelSelectionError::NoModels));
    assert_eq!(ModelSelectionError::NoModels.message(), "No models there");
    assert_eq!(ModelSelectionError::CannotSelectModel.message(), "Cannot select model");
    assert_eq!(ollama::select_model(&ModelsResponse::Models(models), 0), Some("a".to_string()));
    assert_eq!(ollama::select_model(&ModelsResponse::IntentionallyNoModels, 0), None);
}

#[test]
fn ollama_requests() {
    let p = OllamaProvider::new("Ollama|gemma".into(), "http://127.0.0.1:11434/".into(), None, "gemma".into(), None);
    assert_eq!(p.completions_url(), "http://127.0.0.1:11434/v1/chat/completions");
    assert_eq!(ollama::models_url("http://127.0.0.1:11434"), "http://127.0.0.1:11434/v1/models");
    let history = vec![Message::new(Role::System, "be brief"), Message::new(Role::Assistant, "ok")];
    let ms = ollama::ask_messages(&history, "why?").unwrap();
    assert_eq!(ms.len(), 3);
    assert_eq!((ms[0].role(), ms[0].content()), (LLMProviderMessageRole::System, "be brief"));
    assert_eq!((ms[2].role(), ms[2].content()), (LLMProviderMessageRole::User, "why?"));
    let bad = vec![Message::new(Role::Tools, "x")];
    let e = ollama::ask_messages(&bad, "why?").unwrap_err();
    assert_eq!(e, OllamaAskError::UnsupportedRole(Role::Tools));
    assert_eq!(e.message(), "Ollama cannot take a message with role: tools");
}

#[test]
fn ollama_answers() {
    let resp = OllamaGenerateResponse {
        model: "gemma".into(),
        choices: vec![OllamaGenerateResponseChoice {
            index: 0,
            finish_reason: OllamaGenerateResponseFinishReason::Stop,
            message: OllamaGenerateResponseMessage { role: OllamaGenerateResponseRole::Assistant, content: "yes".into() },
        }],
    };
    assert_eq!(ollama::answer_from_response(&resp).unwrap().response(), "yes");
    let empty = OllamaGenerateResponse { model: "gemma".into(), choices: vec![] };
    let e = ollama::answer_from_response(&empty).unwrap_err();
    assert_eq!(e, OllamaAskError::NoResponse);
    assert_eq!(e.message(), "No response from LLM");
    assert_eq!(OllamaGenerateResponseRole::Assistant.to_string(), "assistant");
    assert_eq!(OllamaGenerateResponseFinishReason::ContentFilter.to_string(), "content_filter");
}

#[test]
fn duckduckgo_url_encodes_prompt() {
    let url = DuckDuckGoProvider::format_url("hi there! ü~");
    assert_eq!(
        url,
        "https://duck.ai/chat?ia=chat&origin=funnel_home_website&t=h_&duckai=1&home=1&prompt=1&chip-select=chat&q=hi%20there%21%20%C3%BC~"
    );
    assert_eq!(DuckDuckGoProvider.name(), "DuckDuckGo (Browser)");
    assert_eq!(DuckDuckGoProvider.describe(), "Opens a browser with your prompt");
    assert!(matches!(
        DuckDuckGoProvider::list_models("", None, None),
        ModelsResponse::IntentionallyNoModels
    ));
}

fn reply(reason: OpenAILikeProviderGenerateResponseFinishReason, role: Role, content: Option<&str>, calls: Option<Vec<ToolCall>>) -> OpenAILikeProviderGenerateResponse {
    OpenAILikeProviderGenerateResponse {
        choices: vec![OpenAILikeProviderGenerateResponseChoice {
            finish_reason: reason,
            message: OpenAILikeProviderGenerateResponseMessage {
                role,
                content: content.map(|s| s.to_string()),
                tool_calls: calls,
            },
        }],
    }
}

fn call(id: &str, name: Option<&str>) -> ToolCall {
    ToolCall::new(id.to_string(), name.map(|n| ToolCallFunction::new(n.to_string(), "{}".to_string())))
}

#[test]
fn direct_answer_law() {
    let history = vec![Message::new(Role::User, "earlier"), Message::new(Role::Assistant, "reply")];
    let mut conv = Conversation::start("question", history);
    assert_eq!(conv.history().len(), 3);
    assert!(conv.can_send());
    let step = conv
        .on_response(reply(OpenAILikeProviderGenerateResponseFinishReason::Stop, Role::Assistant, Some("answer"), None))
        .unwrap();
    let AskStep::Answer(answer) = step else { panic!("expected an answer") };
    assert_eq!(answer.response(), "answer");
    let ms = answer.messages();
    assert_eq!(ms.len(), 4);
    assert_eq!((*ms[2].role(), ms[2].content()), (Role::User, Some("question")));
    assert_eq!((*ms[3].role(), ms[3].content()), (Role::Assistant, Some("answer")));
}

#[test]
fn tool_round_then_answer() {
    let provider = openai(None, None);
    let mut conv = Conversation::start("weather?", vec![]);
    let step = conv
        .on_response(reply(
            OpenAILikeProviderGenerateResponseFinishReason::ToolCalls,
            Role::Assistant,
            None,
            Some(vec![call("c1", Some("weather")), call("c2", None), call("c3", Some("time"))]),
        ))
        .unwrap();
    let AskStep::CallTools(calls) = step else { panic!("expected tool calls") };
    assert_eq!(calls.len(), 3);
    assert_eq!(conv.history().len(), 2);
    assert_eq!(conv.history()[1].tool_calls().map(|c| c.len()), Some(3));
    let outcomes = vec![
        (vec!["sunny".to_string()], vec!["stale".to_string()]),
        (vec![], vec![]),
        (vec!["12:00".to_string()], vec![]),
    ];
    let msgs = provider.process_tools(&calls, &outcomes);
    assert_eq!(msgs.len(), 2);
    assert_eq!(*msgs[0].role(), Role::Tools);
    assert_eq!(msgs[0].content(), Some("sunny\nstale"));
    assert_eq!(msgs[0].tool_call_id(), Some("c1"));
    assert_eq!(msgs[1].content(), Some("12:00"));
    assert_eq!(msgs[1].tool_call_id(), Some("c3"));
    conv.on_tool_messages(msgs);
    assert_eq!(conv.history().len(), 4);
    let step = conv
        .on_response(reply(OpenAILikeProviderGenerateResponseFinishReason::Stop, Role::Assistant, None, None))
        .unwrap();
    let AskStep::Answer(answer) = step else { panic!("expected an answer") };
    assert_eq!(answer.response(), "");
    assert_eq!(answer.messages().len(), 5);
}

#[test]
fn conversation_errors() {
    let mut conv = Conversation::start("q", vec![]);
    let e = conv.on_response(OpenAILikeProviderGenerateResponse { choices: vec![] }).err().unwrap();
    assert_eq!(e, AskError::NoResponse);
    assert_eq!(e.message(), "No response from model");
    let e = conv
        .on_response(reply(OpenAILikeProviderGenerateResponseFinishReason::Stop, Role::User, None, None))
        .err()
        .unwrap();
    assert_eq!(e, AskError::UnexpectedRole(Role::User));
    assert_eq!(e.message(), "Unexpected LLM response role: user");
    let e = conv
        .on_response(reply(OpenAILikeProviderGenerateResponseFinishReason::ToolCalls, Role::Assistant, None, Some(vec![])))
        .err()
        .unwrap();
    assert_eq!(e, AskError::EmptyToolCalls);
    assert_eq!(e.message(), "LLM requested tool calls but returned no tool calls");
    let e = conv
        .on_response(reply(OpenAILikeProviderGenerateResponseFinishReason::Length, Role::Assistant, None, None))
        .err()
        .unwrap();
    assert_eq!(e, AskError::UnexpectedFinishReason(OpenAILikeProviderGenerateResponseFinishReason::Length));
    assert_eq!(e.message(), "Unexpected LLM response: length");
    assert_eq!(AskError::TooManyToolCalls.message(), "Too many consecutive tool calls from LLM");
    assert_eq!(conv.history().len(), 1);
}

#[test]
fn conversation_round_limit() {
    let mut conv = Conversation::start("q", vec![]);
    let mut rounds = 0;
    while conv.can_send() {
        let step = conv
            .on_response(reply(
                OpenAILikeProviderGenerateResponseFinishReason::ToolCalls,
                Role::Assistant,
                None,
                Some(vec![call("c", Some("f"))]),
            ))
            .unwrap();
        assert!(matches!(step, AskStep::CallTools(_)));
        rounds += 1;
    }
    assert_eq!(rounds, MAX_TOOL_ITERATIONS);
    assert_eq!(MAX_TOOL_ITERATIONS, 8);
}

#[test]
fn status_classification() {
    assert_eq!(classify_status(200), CompletionStatus::Success);
    assert_eq!(classify_status(429), CompletionStatus::Retry);
    assert_eq!(classify_status(500), CompletionStatus::Failed);
    assert_eq!(classify_status(404), CompletionStatus::Failed);
}

#[test]
fn provider_message_from_message() {
    let m = Message::assistant_tool_call(Some("x".into()), vec![call("id1", Some("f"))]).with_tool_call_id("t".into());
    let w = LLMProviderMessage::from(&m);
    assert_eq!(w.role(), Role::Assistant);
    assert_eq!(w.content(), Some("x"));
    assert_eq!(w.tool_call_id(), Some("t"));
    assert_eq!(w.tool_calls().map(|c| c[0].id().to_string()), Some("id1".to_string()));
    let reqs = asq::providers::openai_like_provider::request_messages(&[m, Message::new(Role::User, "u")]);
    assert_eq!(reqs.len(), 2);
    assert_eq!(reqs[1].content(), Some("u"));
}

#[test]
fn finish_reason_names() {
    assert_eq!(OpenAILikeProviderGenerateResponseFinishReason::ToolCalls.to_string(), "tool_calls");
    assert_eq!(BaseProviderGenerateResponseFinishReason::Error.to_string(), "error");
    assert_eq!(BaseProviderGenerateResponseFinishReason::Stop.to_string(), "stop");
}
