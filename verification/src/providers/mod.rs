//! The two supported repository-hosting providers and the wire-format
//! translations each applies to domain values before submitting them.

use vstd::prelude::*;

pub mod github;
pub mod gitlab;

verus! {

/// Which concrete provider a run talks to.
#[derive(Debug, Clone, Copy)]
pub enum ProviderType {
    GitHub,
    GitLab,
}

/// What a provider needs to reach its API: the base URL, the
/// authentication token, and the repository or project identifier.
#[derive(Debug, Clone)]
pub struct ProviderConfig {
    pub api_url: String,
    pub token: String,
    pub repository: String,
}

} // verus!
