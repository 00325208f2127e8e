//! Stored provider profiles.

use vstd::prelude::*;

verus! {

/// A provider profile as stored.
#[derive(Debug, Clone)]
pub struct ConfigProfileRecord {
    pub id: String,
    pub name: String,
    pub provider: String,
    pub base_url: String,
    pub model: String,
    pub is_default: bool,
}

} // verus!
