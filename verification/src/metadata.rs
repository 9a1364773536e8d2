//! What an asset's metadata says of the collection it belongs to.

use crate::address::AccountId;
use vstd::prelude::*;

verus! {

/// A claim of membership in a collection. It counts only once the
/// collection's own authority has verified it.
#[derive(Clone, Copy, Debug, PartialEq, Eq)]
pub struct Collection {
    pub verified: bool,
    pub key: AccountId,
}

/// The part of an asset's metadata that a listing reads.
#[derive(Clone, Copy, Debug, PartialEq, Eq)]
pub struct Metadata {
    pub collection: Option<Collection>,
}

} // verus!
