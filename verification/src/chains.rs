//! Settings that a chain's configuration hands to the library.

use vstd::prelude::*;

verus! {

/// Where and how a synchronization session scans the chain.
#[derive(Clone, Copy, Debug, PartialEq, Eq)]
pub struct IndexSettings {
    /// The block to start from where nothing was indexed yet.
    pub from_block: u32,
    /// How many blocks one query covers.
    pub chunk_size: u32,
}

} // verus!
