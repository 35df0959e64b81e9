//! Recovery decisions: crash handling, session recovery, filesystem checks
//! and factory reset.

pub mod crash_handler;
pub mod factory_reset;
pub mod fs_check;
pub mod session;
