use std::collections::HashSet;

use asq::controllers::index::{IndexController, OutputMode, RAW_FRONTMATTER_HEADER};
use asq::controllers::memories_delete::MemoriesDeleteController;
use asq::controllers::onboard::OnboardController;
use asq::controllers::providers_delete::ProvidersDeleteController;
use asq::controllers::providers_list::{ProviderSelectionError, ProvidersListController};
use asq::entities::llm_provider::LLMAnswer as EntityAnswer;
use asq::entities::llm_provider_kind::LLMProviderKind;
use asq::entities::message::Message;
use asq::entities::ollama_params::OllamaParams;
use asq::entities::ollama_provider::OllamaProvider;
use asq::entities::placeholder::Placeholder;
use asq::entities::prompt::Prompt;
use asq::entities::proxy::LLMProxy;
use asq::entities::requested_output_format::RequestedOutputFormat;
use asq::entities::role::Role;
use asq::entities::system_prompt::{system_prompt, SYSTEM_PROMPT};
use asq::entities::temperature::Temperature;
use asq::entities::tool_call::{ToolCall, ToolCallFunction, ToolCallType};
use asq::providers::openai_like_provider::OpenAILikeProvider;

#[test]
fn message_constructors() {
    let m = Message::new(Role::User, "hello");
    assert_eq!(*m.role(), Role::User);
    assert_eq!(m.content(), Some("hello"));
    assert_eq!(m.tool_call_id(), None);
    assert!(m.tool_calls().is_none());
    let m = m.with_tool_call_id("abc".to_string());
    assert_eq!(m.tool_call_id(), Some("abc"));
    assert_eq!(m.content(), Some("hello"));
    let t = Message::assistant_tool_call(None, vec![ToolCall::new("1".into(), None)]);
    assert_eq!(*t.role(), Role::Assistant);
    assert_eq!(t.content(), None);
    assert_eq!(t.tool_calls().map(|c| c.len()), Some(1));
    let c = t.clone();
    assert_eq!(c.tool_calls().map(|c| c[0].id().to_string()), Some("1".to_string()));
}

#[test]
fn tool_calls() {
    let f = ToolCallFunction::new("search".into(), "{\"q\":1}".into());
    assert_eq!(f.name(), "search");
    assert_eq!(f.arguments(), "{\"q\":1}");
    let c = ToolCall::new("id".into(), Some(f.clone()));
    assert_eq!(c.id(), "id");
    assert_eq!(c.kind(), ToolCallType::Function);
    assert_eq!(c.function().map(|f| f.name().to_string()), Some("search".to_string()));
    assert_eq!(ToolCallType::Function.to_string(), "function");
}

#[test]
fn names() {
    assert_eq!(Role::User.to_string(), "user");
    assert_eq!(Role::Assistant.to_string(), "assistant");
    assert_eq!(Role::System.to_string(), "system");
    assert_eq!(Role::Tools.to_string(), "tools");
    assert_eq!(Temperature::Converastion.to_string(), "Conversation");
    assert_eq!(Temperature::Deterministic.to_string(), "Deterministic");
    assert_eq!(Temperature::default(), Temperature::Explaining);
    assert_eq!(RequestedOutputFormat::Plain.to_string(), "Plain Text");
    assert_eq!(RequestedOutputFormat::JSON.to_string(), "JSON");
    assert_eq!(OutputMode::Markdown.to_string(), "markdown");
    assert_eq!(OutputMode::Plain.to_string(), "plain");
}

#[test]
fn placeholder_and_params() {
    let p = Placeholder::new("name", true, Some("Your name"));
    assert_eq!(p.name(), "name");
    assert!(p.multiline());
    assert_eq!(p.prompt(), Some("Your name"));
    assert_eq!(Placeholder::new("n", false, None).prompt(), None);
    let o = OllamaParams::new("http://h".into(), "tok".into(), "m".into());
    assert_eq!((o.enpoint_url(), o.auth_token(), o.model()), ("http://h", "tok", "m"));
    let x = LLMProxy::new("socks5h://127.0.0.1:1080");
    assert_eq!(x.proxy_scheme(), "socks5h://127.0.0.1:1080");
    assert_eq!(x.clone().proxy_scheme(), "socks5h://127.0.0.1:1080");
}

#[test]
fn entity_ollama_provider() {
    let p = OllamaProvider::new(
        "Ollama|gemma".into(),
        "http://127.0.0.1:11434/".into(),
        Some("OLLAMA_API_KEY".into()),
        "gemma".into(),
        Some(LLMProxy::new("socks5h://p:1")),
    );
    assert_eq!(p.generate_url(), "http://127.0.0.1:11434/api/generate");
    assert_eq!(p.name(), "Ollama|gemma");
    assert_eq!(p.enpoint_url(), "http://127.0.0.1:11434/");
    assert_eq!(p.model(), "gemma");
    assert_eq!(p.proxy().map(|x| x.proxy_scheme()), Some("socks5h://p:1"));
    assert_eq!(
        p.describe(),
        "Name: Ollama|gemma\nModelID: gemma\nBase URL: http://127.0.0.1:11434/\nAuth token env key: OLLAMA_API_KEY\nProxy: socks5h://p:1\n"
    );
    assert!(matches!(EntityAnswer::External, EntityAnswer::External));
}

#[test]
fn system_prompt_appends_skills() {
    assert_eq!(system_prompt(&[]), SYSTEM_PROMPT);
    let s = system_prompt(&["skill A\n".to_string(), "skill B\n".to_string()]);
    assert_eq!(s, format!("{}skill A\nskill B\n", SYSTEM_PROMPT));
}

#[test]
fn index_prompt_preparation() {
    let plain = Prompt::new("just ask");
    assert_eq!(IndexController::prepare_prompt(&plain), "just ask");
    let with_fm = Prompt::new("---\nformat: json\n---\nask");
    assert_eq!(
        IndexController::prepare_prompt(&with_fm),
        format!("ask\n{}\nformat: json", RAW_FRONTMATTER_HEADER)
    );
    assert_eq!(
        IndexController::prepare_raw_prompt("p", "r"),
        format!("p\n{}\nr", RAW_FRONTMATTER_HEADER)
    );
}

#[test]
fn index_decisions() {
    let c = IndexController::new(false, true, OutputMode::Plain);
    assert!(c.asks_follow_up(false));
    assert!(!c.asks_follow_up(true));
    assert!(c.reuse_last_provider(true));
    assert!(!c.reuse_last_provider(false));
    let s = IndexController::new(true, false, OutputMode::Markdown);
    assert!(!s.reuse_last_provider(true));
    assert!(!s.asks_follow_up(false));
    assert_eq!(s.output(), OutputMode::Markdown);
    let h = IndexController::record_exchange(vec![Message::new(Role::User, "a")], "q", "ans");
    assert_eq!(h.len(), 3);
    assert_eq!((*h[1].role(), h[1].content()), (Role::User, Some("q")));
    assert_eq!((*h[2].role(), h[2].content()), (Role::Assistant, Some("ans")));
}

#[test]
fn onboarding_decision() {
    let _ = OnboardController::new();
    assert!(OnboardController::should_initialize(false, false));
    assert!(OnboardController::should_initialize(true, true));
    assert!(!OnboardController::should_initialize(true, false));
}

fn kind(name: &str) -> LLMProviderKind {
    LLMProviderKind::OpenAILike(OpenAILikeProvider::new(name.into(), "u".into(), None, "m".into(), None, None))
}

#[test]
fn provider_selection() {
    let providers = vec![kind("a"), kind("b")];
    assert_eq!(ProvidersListController::select_provider_kind(&providers, 1).unwrap().to_string(), "b");
    assert_eq!(
        ProvidersListController::select_provider_kind(&providers, 5).err(),
        Some(ProviderSelectionError::FailedToSelect)
    );
    let e = ProvidersListController::select_provider_kind(&[], 0).err().unwrap();
    assert_eq!(e, ProviderSelectionError::NoProviders);
    assert_eq!(e.message(), "You have no providers configured. Add a new one.");
    assert_eq!(ProviderSelectionError::FailedToSelect.message(), "Failed to select LLM provider");
    assert_eq!(ProvidersDeleteController::select_provider_idx(&providers, 1), Ok(1));
    assert_eq!(ProvidersDeleteController::select_provider_idx(&[], 0), Err(ProviderSelectionError::NoProviders));
}

#[test]
fn memories_removal() {
    let memories = vec!["a".to_string(), "b".to_string(), "c".to_string()];
    let mut remove = HashSet::new();
    remove.insert(1usize);
    remove.insert(7usize);
    assert_eq!(MemoriesDeleteController::remaining_memories(&memories, &remove), vec!["a", "c"]);
    assert_eq!(MemoriesDeleteController::remaining_memories(&memories, &HashSet::new()), memories);
    let all: HashSet<usize> = [0, 1, 2].into_iter().collect();
    assert!(MemoriesDeleteController::remaining_memories(&memories, &all).is_empty());
}

#[test]
fn temperature_choice() {
    assert_eq!(Temperature::choice(0), Temperature::Deterministic);
    assert_eq!(Temperature::choice(3), Temperature::Converastion);
    assert_eq!(Temperature::choice(4), Temperature::Creative);
    assert_eq!(Temperature::choice(9), Temperature::Explaining);
}

#[test]
fn answer_formatting() {
    let md = "# Title\n\nSome **bold** text.";
    let shown = IndexController::format_answer(OutputMode::Markdown, md);
    assert_ne!(shown, md);
    assert!(shown.contains("Title"));
    assert!(shown.contains("bold"));
    assert!(!shown.contains("**"));
    assert_eq!(IndexController::format_answer(OutputMode::Plain, md), md);
}
