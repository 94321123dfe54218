//! The earlier, label-only configuration model, kept for callers of the
//! original label-manager entry point.

use vstd::prelude::*;

verus! {

/// A repository label as the earlier configuration file declares it.
pub struct Label {
    pub name: String,
    pub color: String,
    pub description: Option<String>,
}

/// The parsed label-configuration file of the earlier entry point.
pub struct Config {
    pub labels: Vec<Label>,
}

} // verus!
