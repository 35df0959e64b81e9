//! CortexOS service core: error taxonomy, identifiers, authentication
//! helpers, configuration layering, AI routing, admin diagnostics and
//! recovery decisions, and the API-layer protocol logic, each stated by a
//! contract and proved.

pub mod auth;
pub mod base;
pub mod db;
pub mod text;

pub use base::error::{
    CoreError, CortexError, CortexErrorBody, ErrorCategory, ErrorCode, ResponseMeta,
    SuccessResponse,
};
pub mod config;
pub mod ai;
pub mod admin;
pub mod api;
