//! Core of an interactive terminal shell front-end: the markup parser for the
//! help and output panels, command-line words, `cd` completion, the meaning
//! of a submitted command, and the input state machine over the session.

pub mod markup;
pub mod text;
pub mod session;
pub mod command;
pub mod completion;
pub mod machine;
pub mod laws;
