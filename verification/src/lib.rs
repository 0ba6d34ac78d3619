//! Application-shell core for a desktop document viewer.
//!
//! The shell owns three pieces of logic: a process-wide holding cell that
//! captures an OS "open this file" notification delivered before the UI is
//! ready ([`slot`], [`shared`], [`bridge`]), the declarative description of
//! the session menu ([`menu`]), and the mapping from activated menu
//! identifiers to outbound notifications for the UI layer ([`dispatch`]).
//! The surrounding platform runtime (window system, event loop, IPC) is an
//! external collaborator and lives outside this crate.

pub mod bridge;
pub mod dispatch;
pub mod menu;
pub mod shared;
pub mod slot;
