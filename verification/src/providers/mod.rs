pub mod base_provider;
pub mod duckduckgo;
pub mod llm_provider;
pub mod ollama;
pub mod openai_like_provider;
