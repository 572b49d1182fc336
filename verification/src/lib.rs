//! Casing normaliser for PowerShell sources: the scanner that rewrites command
//! and parameter names, the rules that select files and judge a run, and the
//! contracts that state what each of them computes.
//!
//! The library reads no file and starts no program. What lies on disk and
//! what Git and the fallback script answer reach it as plain values, and it
//! says what follows from them.

pub mod chars;
pub mod cli;
pub mod command;
pub mod config;
pub mod discovery;
pub mod error;
pub mod formatter;
pub mod paths;
pub mod processor;
pub mod summary;
pub mod text;
