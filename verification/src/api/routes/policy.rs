//! Permission route bodies.

use vstd::prelude::*;

verus! {

/// The response body of a permission check.
#[derive(Debug, Clone)]
pub struct PermissionCheckResponse {
    pub allowed: bool,
}

/// A permission grant as it appears in a response body.
#[derive(Debug, Clone)]
pub struct GrantResponse {
    pub grant_id: String,
    pub user_id: String,
    pub app_id: String,
    pub permission: String,
    pub granted_at: String,
}

/// The body of a permission grant request.
#[derive(Debug, Clone)]
pub struct GrantRequest {
    pub user_id: String,
    pub app_id: String,
    pub permission: String,
}

/// The body of a permission check request.
#[derive(Debug, Clone)]
pub struct CheckRequest {
    pub app_id: String,
    pub permission: String,
}

} // verus!
