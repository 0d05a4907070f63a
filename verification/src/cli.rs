//! What the command line front end decides.

pub mod subcommand;
