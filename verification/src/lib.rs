//! Startup logic of the Streamio desktop shell.
//!
//! The crate holds the decisions that the shell makes while it starts, apart
//! from the windowing host that carries them out:
//!
//! * [`greeting`]: the text of the one command that the frontend can invoke;
//! * [`bootstrap`]: the ordered startup plan and the life cycle of the host.

pub mod bootstrap;
pub mod greeting;

pub use greeting::greet;
