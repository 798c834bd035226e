//! Verified core of a desktop shell that starts a backend executable as a
//! child process, relays its output, and tears it down when the window closes.
pub mod decimal;
pub mod guard;
pub mod launch;
pub mod pattern;
pub mod pid;
pub mod relay;
pub mod state;
