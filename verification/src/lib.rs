//! The verified core of an interactive terminal chat client: the message log,
//! the key dispatcher, the session state machine and the frame that a screen
//! redraw shows.

pub mod gateway;
pub mod input;
pub mod message;
pub mod render;
pub mod session;
pub mod strings;
