//! Decision logic of a Windows pseudoterminal host: option checks, the
//! stream engine's state machines, and the rules both console backends follow.

pub mod pty;

pub use pty::{AgentConfig, MouseMode, PTYArgs, PTYBackend, PTY};
