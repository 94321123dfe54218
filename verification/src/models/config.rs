//! The label-configuration document: the list of labels that the label
//! creation entry point submits one by one.

use vstd::prelude::*;

use crate::models::common::Label;
use crate::models::common::LabelView;

verus! {

/// The parsed label-configuration file.
pub struct Config {
    pub labels: Vec<Label>,
}

impl View for Config {
    type V = Seq<LabelView>;

    open spec fn view(&self) -> Seq<LabelView> {
        self.labels.deep_view()
    }
}

} // verus!
