pub mod anon;
pub mod cookies;
pub mod crypto;
pub mod deepseek;
pub mod defaults;
pub mod error;
pub mod grok_models;
pub mod grok_parser;
pub mod handshake;
pub mod media;
pub mod model_selector;
pub mod qwen_models;
pub mod retry;
pub mod streaming;
pub mod text;
pub mod token_cache;
pub mod upload;
pub mod utils;
pub mod xsid;
pub mod zto;
