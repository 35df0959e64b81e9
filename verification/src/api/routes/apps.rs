//! App route bodies.

use vstd::prelude::*;

verus! {

/// An app instance as it appears in a response body.
#[derive(Debug, Clone)]
pub struct AppInstanceResponse {
    pub instance_id: String,
    pub app_id: String,
    pub user_id: String,
    pub state: String,
    pub window_id: Option<String>,
    pub launched_at: Option<String>,
    pub stopped_at: Option<String>,
}

/// The body of an app launch request.
#[derive(Debug, Clone)]
pub struct LaunchRequest {
    pub app_id: String,
}

} // verus!
