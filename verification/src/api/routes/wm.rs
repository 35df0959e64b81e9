//! Window-management route bodies.

use vstd::prelude::*;

verus! {

/// A window as it appears in a response body.
#[derive(Debug, Clone)]
pub struct WindowResponse {
    pub id: String,
    pub instance_id: String,
    pub user_id: String,
    pub workspace_id: String,
    pub title: String,
    /// One of `normal`, `minimized`, `maximized`, `closed`.
    pub state: String,
    pub x: i32,
    pub y: i32,
    pub width: u32,
    pub height: u32,
    pub z_index: u32,
    pub focused: bool,
    pub created_at: String,
    pub updated_at: String,
}

/// A workspace as it appears in a response body.
#[derive(Debug, Clone)]
pub struct WorkspaceResponse {
    pub id: String,
    pub user_id: String,
    pub name: String,
    pub index: u32,
    pub active: bool,
    pub created_at: String,
}

} // verus!
