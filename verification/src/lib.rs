//! Deployment front-end library for declarative system configurations.
//!
//! The library resolves a configuration reference (an "installable"),
//! renders the argument vectors handed to the external builder, discovers
//! and orders the generations recorded by a profile, and sequences the
//! rebuild and rollback pipelines, including the compensating revert when
//! an activation fails after the profile has been repointed.

pub mod check;
pub mod darwin;
pub mod commands;
pub mod error;
pub mod generations;
pub mod home;
pub mod installable;
pub mod nixos;
pub mod system;
pub mod util;
