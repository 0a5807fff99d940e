//! A plugin-and-daemon framework for extending a command-line host: a registry
//! of capability objects, the decisions of a daemon's event loop, the framing of
//! its messages and the connect-or-spawn protocol of its clients; beside them,
//! the error types, listing options and daemon messages of the host and of
//! the plugins bundled with it.
use vstd::prelude::*;

pub mod plugin;
pub mod registry;
pub mod codec;
pub mod runtime;
pub mod client;
pub mod error;
pub mod filter;
pub mod modes;
pub mod pomodoro;
pub mod text;

verus! {

} // verus!
