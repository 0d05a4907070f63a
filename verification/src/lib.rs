//! Planning, describing, executing and reverting the steps of a Nix installation.

pub mod action;
pub mod cli;
pub mod plan;
pub mod settings;
