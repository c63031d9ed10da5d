//! The translation backend: an inference server that speaks the OpenAI-compatible chat
//! completions API (Ollama, vLLM, llama.cpp server).

pub mod errors;
pub mod json;
pub mod manager;
pub mod openai;
pub mod retry;
pub mod warnings;

pub use errors::{map_translation_error, BackendError, TranslateError, TranslationResult};
pub use manager::{CreationStep, ModelAvailability, ProviderManager, TranslateStep};
pub use openai::OpenAiProvider;
pub use retry::ProviderConfig;
