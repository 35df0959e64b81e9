//! AI runtime: errors, chat and provider types, the stub adapter, and the
//! routing decisions of the AI service.

pub mod error;
pub mod routing;
pub mod types;
