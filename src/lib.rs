//! A single-collection registry of non-fungible assets: minting, ownership
//! transfer and a creator royalty on secondary payments.
use vstd::prelude::*;

pub mod royalty;
pub mod types;
pub mod registry;
pub mod laws;

verus! {

} // verus!
