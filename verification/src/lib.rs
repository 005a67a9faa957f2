//! An interactive line-editing and command-dispatch engine for a small shell.
//!
//! The library holds the verified core: key-event classification, the cursor
//! tracker, the prompt renderer, the history buffer, the line buffer, the
//! parser and the execution state machine. Terminal and process I/O stay
//! outside; the library exchanges plain values and rendering instructions
//! with its caller.

pub mod cd;
pub mod command;
pub mod cursor;
pub mod displaymode;
pub mod executor;
pub mod history;
pub mod keys;
pub mod parser;
pub mod prompt;
pub mod render;
pub mod shell;
pub mod strutil;
