//! The command line, as far as the library reads it.

pub mod cli;
