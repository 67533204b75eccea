//! Server-side session logic of a small mail-submission protocol: a state
//! machine that reads one command line at a time, enforces the order of
//! commands, builds up the envelope of a message and answers each line.
//!
//! `protocol` holds the session and its contract, `lexer` the splitting of a
//! line into words, and `laws` the properties proved of whole sessions.

pub mod laws;
pub mod lexer;
pub mod protocol;
