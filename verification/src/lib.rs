//! Resolves short application names to launch targets and decides, step by
//! step, how a named application is started on the host platform.

pub mod behavior;
pub mod cli;
pub mod launch;
pub mod outcome;
pub mod platform;
pub mod registry;
pub mod text;
