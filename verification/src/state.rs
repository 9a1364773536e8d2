//! The records that the marketplace keeps.

use crate::address::AccountId;
use crate::errors::MarketplaceError;
use vstd::prelude::*;
use vstd::string::StrSliceExecFns;
use vstd::utf8::encode_utf8;

verus! {

/// One marketplace: who administers it, its fee, and its display name.
#[derive(Clone, Debug, PartialEq, Eq)]
pub struct Marketplace {
    pub admin: AccountId,
    pub fee: u16,
    pub name: String,
}

impl Marketplace {
    /// The bytes kept for a stored marketplace: a tag of 8, the admin, the
    /// fee, and a name of up to 32 bytes behind its length. A name is one
    /// seed of the marketplace's address, so none that is stored is longer.
    pub const LEN: usize = 8 + 32 + 2 + 4 + 32;

    /// A name is valid when it has 4 to 32 characters.
    pub open spec fn valid_name(name: Seq<char>) -> bool {
        4 <= name.len() <= 32
    }

    /// The bytes that a marketplace of this name takes when stored: the tag,
    /// the admin, the fee, the name's length, and the name.
    pub open spec fn stored_len(name: Seq<char>) -> nat {
        8 + 32 + 2 + 4 + encode_utf8(name).len()
    }

    /// Accepts a name of 4 to 32 characters, and no other.
    pub fn validate_name(name: &str) -> (checked: Result<(), MarketplaceError>)
        ensures
            checked == (if Marketplace::valid_name(name@) {
                Ok::<(), MarketplaceError>(())
            } else {
                Err::<(), MarketplaceError>(MarketplaceError::InvalidName)
            }),
    {
        let len = name.unicode_len();
        if len < 33 && len > 3 {
            Ok(())
        } else {
            Err(MarketplaceError::InvalidName)
        }
    }
}

/// The approval of one collection in one marketplace. It is stored at the
/// address that the marketplace and the collection's mint derive.
#[derive(Clone, Copy, Debug, PartialEq, Eq)]
pub struct Whitelist {
    pub collection_mint: AccountId,
}

impl Whitelist {
    /// The bytes that a stored approval takes.
    pub const LEN: usize = 8 + 32;
}

/// One asset offered at a fixed price while a vault holds it.
#[derive(Clone, Copy, Debug, PartialEq, Eq)]
pub struct Listing {
    pub owner: AccountId,
    pub mint: AccountId,
    pub price: u64,
}

impl Listing {
    /// The bytes that a stored listing takes.
    pub const LEN: usize = 8 + 32 + 32 + 8;
}

/// Units of one mint, held for an authority.
#[derive(Clone, Copy, Debug, PartialEq, Eq)]
pub struct Holding {
    pub mint: AccountId,
    pub authority: AccountId,
    pub amount: u64,
}

/// What an address of the ledger holds.
#[derive(Clone, Debug, PartialEq, Eq)]
pub enum Account {
    Marketplace(Marketplace),
    Whitelist(Whitelist),
    Listing(Listing),
    Holding(Holding),
}

} // verus!
