//! Notification route bodies.

use vstd::prelude::*;

verus! {

/// A notification as it appears in a response body.
#[derive(Debug, Clone)]
pub struct NotificationResponse {
    pub notification_id: String,
    pub user_id: String,
    pub title: String,
    pub body: String,
    pub category: String,
    pub is_read: bool,
    pub created_at: String,
    pub dismissed_at: Option<String>,
}

} // verus!
