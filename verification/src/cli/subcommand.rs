//! The subcommands of the command line front end.

pub mod export;
pub mod paths;
pub mod sample;
