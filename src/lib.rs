//! An interactive command shell: a whitespace tokenizer, a registry of named
//! commands, and a dispatcher that resolves a line to a command outcome.
pub mod command;
pub mod registry;
pub mod shell;
pub mod tokenizer;
