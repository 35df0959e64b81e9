//! Admin diagnostics and recovery: health aggregation, metrics buffering,
//! diagnostic export, redaction, safe mode, crash and session recovery,
//! filesystem checks and factory reset.

pub mod bundler;
pub mod collector;
pub mod constants;
pub mod error;
pub mod health;
pub mod recovery;
pub mod redactor;
pub mod ring_buffer;
pub mod safe_mode;
pub mod service;
pub mod types;
