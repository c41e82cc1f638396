//! The filter chips shown above event and course lists.

use vstd::prelude::*;

verus! {

/// One filter chip and whether it is selected.
#[derive(Clone, Debug)]
pub struct FilterOption {
    pub label: String,
    pub is_active: bool,
}

impl FilterOption {
    pub fn new(label: String, is_active: bool) -> (option: Self)
        ensures
            option.label == label,
            option.is_active == is_active,
    {
        FilterOption { label, is_active }
    }
}

/// A labelled row of filter chips.
#[derive(Clone, Debug)]
pub struct FilterGroup {
    pub label: String,
    pub options: Vec<FilterOption>,
}

impl FilterGroup {
    pub fn new(label: String, options: Vec<FilterOption>) -> (group: Self)
        ensures
            group.label == label,
            group.options == options,
    {
        FilterGroup { label, options }
    }
}

} // verus!
