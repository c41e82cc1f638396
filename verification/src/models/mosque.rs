//! Mosque data read from OpenStreetMap.

use vstd::prelude::*;

verus! {

/// The OpenStreetMap tags of a mosque that the platform keeps.
#[derive(Clone, Debug)]
pub struct Tags {
    pub name: Option<String>,
    pub street: Option<String>,
    pub city: Option<String>,
}

} // verus!
