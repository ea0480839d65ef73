//! Resolves, installs and launches the SourcePawn language server for the editor.
//!
//! The decisions are a state machine (`resolver`) that asks the host for each piece
//! of outside work (a search-path lookup, a file check, a release query, a download,
//! a directory listing) and is told what happened.

pub mod error;
pub mod guarantees;
pub mod platform;
pub mod release;
pub mod resolver;
