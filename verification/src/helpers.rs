//! Checks and seed lists shared by the operations.

use crate::address::AccountId;
use crate::errors::MarketplaceError;
use crate::metadata::Collection;
use vstd::prelude::*;

verus! {

/// What the check of a collection claim reports: the claim must be there;
/// then it must name the expected collection and be verified.
pub open spec fn nft_check(collection: Option<Collection>, mint: AccountId) -> Result<
    (),
    MarketplaceError,
> {
    match collection {
        None => Err(MarketplaceError::CollectionNotSet),
        Some(claim) => if claim.key == mint && claim.verified {
            Ok(())
        } else {
            Err(MarketplaceError::InvalidCollection)
        },
    }
}

/// Checks that the claim attests membership in the collection of `mint`.
pub fn validate_nft(collection: &Option<Collection>, mint: &AccountId) -> (checked: Result<
    (),
    MarketplaceError,
>)
    ensures
        checked == nft_check(*collection, *mint),
{
    match collection {
        None => Err(MarketplaceError::CollectionNotSet),
        Some(claim) => {
            if claim.key != *mint {
                Err(MarketplaceError::InvalidCollection)
            } else if !claim.verified {
                Err(MarketplaceError::InvalidCollection)
            } else {
                Ok(())
            }
        },
    }
}

/// The seeds of one signer, as the list of signers to sign with.
pub fn seeds(inner: Vec<Vec<u8>>) -> (outer: Vec<Vec<Vec<u8>>>)
    ensures
        outer@ == seq![inner],
{
    let mut outer: Vec<Vec<Vec<u8>>> = Vec::new();
    outer.push(inner);
    proof {
        assert(outer@ =~= seq![inner]);
    }
    outer
}

} // verus!
