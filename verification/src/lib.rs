//! Provisioning of project-management metadata (labels, milestones, issues,
//! and inter-issue dependency links) on a remote repository host.
//!
//! The library holds the verified core: the domain model with its markdown
//! rendering rule, the provider-specific wire translations, and the setup
//! orchestrator that drives a project through a provider's primitives with
//! correct ordering, identifier translation, and fail-fast error handling.
//! The surrounding binary performs the HTTP calls the orchestrator asks for.

pub mod config;
pub mod error;
pub mod models;
pub mod providers;
pub mod setup;
