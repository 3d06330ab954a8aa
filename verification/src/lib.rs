//! Command surface of a native desktop shell.
//!
//! The host runtime owns the windows, the event loop and the platform
//! directories; this library holds the decisions each command makes: how a
//! window-state query is read, which request a toggle issues, and how the
//! two directory queries become a response or an error. Every function works
//! on plain values handed in by the adapter that talks to the host.

pub mod paths;
pub mod window;
