//! The domain model: projects, milestones, issues and labels, together with
//! the markdown rendering rule for issue descriptions.

pub mod common;
pub mod config;
