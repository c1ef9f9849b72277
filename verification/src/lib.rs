//! Mapping between a provider-neutral chat model and the wire formats of chat providers.

pub mod anthropic;
pub mod auth;
pub mod block;
pub mod capabilities;
pub mod chat;
pub mod clock;
pub mod conversion_laws;
pub mod error;
pub mod json;
pub mod message;
pub mod model_laws;
pub mod openai_compatible;
pub mod openai_laws;
pub mod request;
pub mod text;
pub mod tool;
