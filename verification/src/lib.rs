//! Remapping of the meta modifier key to the control modifier key.
//!
//! A host that observes low-level keyboard events hands each one to a
//! [`engine::RemapEngine`], which answers whether the event is to be suppressed
//! or passed on and which synthetic control-key event, if any, the host is to
//! submit in its place. The library performs no input or output of its own.

pub mod keys;
pub mod event;
pub mod state;
pub mod engine;
pub mod trace;
pub mod injector;
pub mod hook;
