pub mod llm_provider;
pub mod llm_provider_kind;
pub mod message;
pub mod ollama_params;
pub mod ollama_provider;
pub mod placeholder;
pub mod prompt;
pub mod proxy;
pub mod requested_output_format;
pub mod role;
pub mod system_prompt;
pub mod temperature;
pub mod tool_call;
