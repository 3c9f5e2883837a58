use asq::entities::ollama_provider::{generated_answer, OllamaGenerateResponse, OllamaProvider as NativeOllama};
use asq::entities::system_prompt::SYSTEM_PROMPT;
use asq::entities::message::Message;
use asq::entities::role::Role;
use asq::entities::temperature::Temperature;
use asq::providers::base_provider::{status_ok, BaseProvider};
use asq::providers::llm_provider::LLMProviderMessageRole;
use asq::providers::ollama::{OllamaAskError, OllamaProvider};
use asq::providers::openai_like_provider::{OpenAILikeProvider, ToolChoice};

#[test]
fn base_request_body() {
    let p = BaseProvider::new("d".into(), "https://api.deepseek.com".into(), None, "deepseek-chat".into(), None);
    let history = vec![Message::new(Role::User, "hi"), Message::new(Role::Assistant, "hello")];
    let body = p.request_body(&history, "question");
    assert_eq!(body.model(), "deepseek-chat");
    assert!(!body.stream());
    let ms: Vec<(Role, String)> = body.messages().iter().map(|m| (m.role(), m.content().to_string())).collect();
    assert_eq!(
        ms,
        vec![
            (Role::User, "hi".to_string()),
            (Role::Assistant, "hello".to_string()),
            (Role::User, "question".to_string())
        ]
    );
}

#[test]
fn status_must_be_200() {
    assert!(status_ok(200));
    assert!(!status_ok(201));
    assert!(!status_ok(429));
    assert!(!status_ok(500));
}

#[test]
fn ollama_request_body() {
    let p = OllamaProvider::new("o".into(), "http://127.0.0.1:11434".into(), None, "gemma".into(), None);
    let history = vec![Message::new(Role::System, "be brief")];
    let body = p.request_body(&history, "why?").unwrap();
    assert_eq!(body.model(), "gemma");
    assert!(!body.stream());
    assert_eq!(body.messages().len(), 2);
    assert_eq!(body.messages()[0].role(), LLMProviderMessageRole::System);
    assert_eq!(body.messages()[1].role(), LLMProviderMessageRole::User);
    assert_eq!(body.messages()[1].content(), "why?");
    let bad = vec![Message::new(Role::Tools, "x")];
    assert_eq!(p.request_body(&bad, "why?").err(), Some(OllamaAskError::UnsupportedRole(Role::Tools)));
}

#[test]
fn openai_like_request_body() {
    let p = OpenAILikeProvider::new("l".into(), "u".into(), None, "gemma".into(), None, Some(Temperature::Strict));
    let history = vec![Message::new(Role::User, "q")];
    let tools = vec![serde_json::from_str::<serde_json::Value>("{\"type\":\"function\",\"function\":{\"name\":\"now\"}}").unwrap()];
    let body = p.request_body(&history, tools.clone());
    assert_eq!(body.model(), "gemma");
    assert!(!body.stream());
    assert_eq!(body.temperature(), Temperature::Strict);
    assert_eq!(body.tool_choice(), ToolChoice::Auto);
    assert_eq!(ToolChoice::Auto.to_string(), "auto");
    assert_eq!(body.tools(), tools.as_slice());
    assert_eq!(body.messages().len(), 1);
    assert_eq!(body.messages()[0].content(), Some("q"));
    let q = OpenAILikeProvider::new("l".into(), "u".into(), None, "m".into(), None, None);
    assert_eq!(q.request_body(&[], Vec::new()).temperature(), Temperature::Explaining);
}

#[test]
fn ollama_generate_request() {
    let p = NativeOllama::new("o".into(), "http://h/".into(), None, "gemma".into(), None);
    let body = p.generate_body("why?");
    assert_eq!(body.model(), "gemma");
    assert_eq!(body.prompt(), "why?");
    assert!(!body.stream());
    assert_eq!(body.system(), SYSTEM_PROMPT);
    assert_eq!(generated_answer(&OllamaGenerateResponse { response: "because".into() }), "because");
}

#[test]
fn message_from_parts() {
    let m = Message::from_parts(Role::Tools, None, Some("id".into()), None);
    assert_eq!(*m.role(), Role::Tools);
    assert_eq!(m.content(), None);
    assert_eq!(m.tool_call_id(), Some("id"));
    assert!(m.tool_calls().is_none());
}
