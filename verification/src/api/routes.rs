//! The decisions of the route handlers: how service errors are answered
//! and how service results are shaped into response bodies.

pub mod admin;
pub mod ai;
pub mod apps;
pub mod auth;
pub mod files;
pub mod notifications;
pub mod policy;
pub mod search;
pub mod wm;
