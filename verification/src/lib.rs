//! A registry of managed child processes, written without I/O: every
//! operation is a verified transition on the registry and a decision about
//! what the host has to do next.

pub mod commands;
pub mod forward;
pub mod laws;
pub mod outcome;
pub mod registry;
pub mod text;
