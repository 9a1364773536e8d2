//! The failures that an operation of the marketplace reports.

use vstd::prelude::*;

verus! {

/// Why an operation was refused.
#[derive(Clone, Copy, Debug, PartialEq, Eq, Structural)]
pub enum MarketplaceError {
    /// The marketplace name has fewer than 4 or more than 32 characters.
    InvalidName,
    /// The collection claim names another collection, or is not verified.
    InvalidCollection,
    /// The asset carries no collection claim.
    CollectionNotSet,
    /// The caller is not the admin or owner that the operation asks for.
    Unauthorized,
    /// The address at which a record was to be created is occupied.
    AlreadyExists,
    /// The asset ledger rejected the move.
    TransferFailed,
    /// The seeds derive no address: no bump byte does, or they are too many
    /// or too long.
    DerivationExhausted,
}

} // verus!
