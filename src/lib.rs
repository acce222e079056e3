//! A minimal command interpreter: parsing of input lines, the builtin
//! commands, resolution of external commands against a search list, and the
//! decision of what each line asks the host process to do.

pub mod text;
pub mod resolve;
pub mod command;
pub mod shell;
pub mod laws;
