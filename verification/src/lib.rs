//! An escrow marketplace for collection-verified assets.
//!
//! An admin registers a marketplace under a name and approves collections
//! for it. The owner of an asset of an approved collection lists one unit of
//! it at a fixed price, which moves the unit into a vault that only the
//! listing's derived authority controls, and delists it to get the unit back.
//!
//! The ledger is a map from addresses to accounts. Every operation either
//! succeeds or leaves the ledger as it was.

pub mod address;
pub mod address_map;
pub mod errors;
pub mod helpers;
pub mod laws;
pub mod ledger;
pub mod metadata;
pub mod model;
pub mod state;

use crate::address::{
    authority_for, derived, marketplace_address, marketplace_seeds, spec_vault_seeds, vault_address, vault_seeds, whitelist_address, whitelist_seeds, AccountId,
    AuthorityView,
};
use crate::errors::MarketplaceError;
use crate::helpers::{nft_check, validate_nft};
use crate::ledger::Ledger;
use crate::metadata::Metadata;
use crate::model::{
    approved_at, create_outcome, escrow_outcome, listing_at, marketplace_at, rejected,
    release_outcome, Outcome,
};
use crate::state::{Account, Marketplace, Whitelist};
use vstd::prelude::*;

verus! {

/// Who registers a marketplace.
#[derive(Clone, Copy, Debug)]
pub struct Initialize {
    pub admin: AccountId,
}

/// Who approves which collection for which marketplace.
#[derive(Clone, Copy, Debug)]
pub struct AddCollection {
    pub admin: AccountId,
    pub marketplace: AccountId,
    pub mint: AccountId,
}

/// Who lists which asset: the maker and the holding that the unit comes
/// from, the marketplace and the collection it is listed under, the asset's
/// mint and metadata, and the address at which the listing is stored.
#[derive(Clone, Copy, Debug)]
pub struct List {
    pub maker: AccountId,
    pub marketplace: AccountId,
    pub collection_mint: AccountId,
    pub mint: AccountId,
    pub maker_ata: AccountId,
    pub metadata: Metadata,
    pub listing: AccountId,
}

/// Who delists what: the maker and the holding that the unit goes back to,
/// the listing, and the vault that the maker names as the listing's.
#[derive(Clone, Copy, Debug)]
pub struct Delist {
    pub maker: AccountId,
    pub listing: AccountId,
    pub maker_ata: AccountId,
    pub vault: AccountId,
}

/// Registering a marketplace: the name must be valid; the record goes to the
/// address that the name derives, which must be free.
pub open spec fn initialize_outcome(
    accounts: Map<AccountId, Account>,
    program_id: AccountId,
    ctx: Initialize,
    name: String,
    fee: u16,
) -> Outcome {
    if !Marketplace::valid_name(name@) {
        rejected(accounts, MarketplaceError::InvalidName)
    } else {
        match marketplace_address(name@, program_id) {
            None => rejected(accounts, MarketplaceError::DerivationExhausted),
            Some(address) => create_outcome(
                accounts,
                address,
                Account::Marketplace(Marketplace { admin: ctx.admin, fee, name }),
            ),
        }
    }
}

/// Approving a collection: the caller must be the marketplace's admin; the
/// registration goes to the address that the marketplace and the mint
/// derive, which must be free.
pub open spec fn add_collection_outcome(
    accounts: Map<AccountId, Account>,
    program_id: AccountId,
    ctx: AddCollection,
) -> Outcome {
    match marketplace_at(accounts, ctx.marketplace) {
        None => rejected(accounts, MarketplaceError::Unauthorized),
        Some(marketplace) => if marketplace.admin != ctx.admin {
            rejected(accounts, MarketplaceError::Unauthorized)
        } else {
            match whitelist_address(ctx.marketplace, ctx.mint, program_id) {
                None => rejected(accounts, MarketplaceError::DerivationExhausted),
                Some(address) => create_outcome(
                    accounts,
                    address,
                    Account::Whitelist(Whitelist { collection_mint: ctx.mint }),
                ),
            }
        },
    }
}

/// Whether a collection is approved for a marketplace: whether its
/// registration is stored at the address that the two derive.
pub open spec fn approval(
    accounts: Map<AccountId, Account>,
    program_id: AccountId,
    marketplace: AccountId,
    collection_mint: AccountId,
) -> Result<bool, MarketplaceError> {
    match whitelist_address(marketplace, collection_mint, program_id) {
        None => Err(MarketplaceError::DerivationExhausted),
        Some(address) => Ok(approved_at(accounts, address, collection_mint)),
    }
}

/// Listing: the collection must be approved for the marketplace, and the
/// asset's metadata must attest verified membership in it; then the unit is
/// taken into the vault that the listing's address derives.
pub open spec fn list_outcome(
    accounts: Map<AccountId, Account>,
    program_id: AccountId,
    ctx: List,
    price: u64,
) -> Outcome {
    match whitelist_address(ctx.marketplace, ctx.collection_mint, program_id) {
        None => rejected(accounts, MarketplaceError::DerivationExhausted),
        Some(whitelist) => if !approved_at(accounts, whitelist, ctx.collection_mint) {
            rejected(accounts, MarketplaceError::Unauthorized)
        } else {
            match nft_check(ctx.metadata.collection, ctx.collection_mint) {
                Err(error) => rejected(accounts, error),
                Ok(_) => match vault_address(ctx.listing, program_id) {
                    None => rejected(accounts, MarketplaceError::DerivationExhausted),
                    Some(vault) => escrow_outcome(
                        accounts,
                        ctx.listing,
                        vault,
                        ctx.maker,
                        ctx.maker_ata,
                        ctx.mint,
                        price,
                    ),
                },
            }
        },
    }
}

/// Delisting: the caller must own the listing; then the unit is given back
/// under the authority that the listing's address derives.
pub open spec fn delist_outcome(
    accounts: Map<AccountId, Account>,
    program_id: AccountId,
    ctx: Delist,
) -> Outcome {
    match listing_at(accounts, ctx.listing) {
        None => rejected(accounts, MarketplaceError::Unauthorized),
        Some(listed) => if listed.owner != ctx.maker {
            rejected(accounts, MarketplaceError::Unauthorized)
        } else {
            match derived(spec_vault_seeds(ctx.listing), program_id) {
                None => rejected(accounts, MarketplaceError::DerivationExhausted),
                Some((address, bump)) => release_outcome(
                    accounts,
                    program_id,
                    ctx.maker,
                    ctx.listing,
                    ctx.maker_ata,
                    ctx.vault,
                    AuthorityView {
                        program_id,
                        seeds: spec_vault_seeds(ctx.listing),
                        address,
                        bump,
                    },
                ),
            }
        },
    }
}

/// Registers a marketplace under a name, with the caller as its admin.
pub fn initialize(ledger: &mut Ledger, ctx: &Initialize, name: String, fee: u16) -> (done: Result<
    (),
    MarketplaceError,
>)
    ensures
        final(ledger).spec_program_id() == old(ledger).spec_program_id(),
        final(ledger)@ == initialize_outcome(
            old(ledger)@,
            old(ledger).spec_program_id(),
            *ctx,
            name,
            fee,
        ).accounts,
        done == initialize_outcome(
            old(ledger)@,
            old(ledger).spec_program_id(),
            *ctx,
            name,
            fee,
        ).result,
{
    match Marketplace::validate_name(name.as_str()) {
        Err(error) => {
            return Err(error);
        },
        Ok(_) => {},
    }
    let program_id = ledger.program_id();
    match crate::address::derive(&marketplace_seeds(name.as_str()), &program_id) {
        Err(error) => Err(error),
        Ok((address, _)) => ledger.create(
            address,
            Account::Marketplace(Marketplace { admin: ctx.admin, fee, name }),
        ),
    }
}

/// Approves a collection for a marketplace, on behalf of its admin.
pub fn add_collection(ledger: &mut Ledger, ctx: &AddCollection) -> (done: Result<
    (),
    MarketplaceError,
>)
    ensures
        final(ledger).spec_program_id() == old(ledger).spec_program_id(),
        final(ledger)@ == add_collection_outcome(
            old(ledger)@,
            old(ledger).spec_program_id(),
            *ctx,
        ).accounts,
        done == add_collection_outcome(old(ledger)@, old(ledger).spec_program_id(), *ctx).result,
{
    let admin = match ledger.marketplace(&ctx.marketplace) {
        Some(marketplace) => marketplace.admin,
        None => {
            return Err(MarketplaceError::Unauthorized);
        },
    };
    if admin != ctx.admin {
        return Err(MarketplaceError::Unauthorized);
    }
    let program_id = ledger.program_id();
    match crate::address::derive(&whitelist_seeds(&ctx.marketplace, &ctx.mint), &program_id) {
        Err(error) => Err(error),
        Ok((address, _)) => ledger.create(
            address,
            Account::Whitelist(Whitelist { collection_mint: ctx.mint }),
        ),
    }
}

/// Whether the collection is approved for the marketplace.
pub fn is_approved(ledger: &Ledger, marketplace: &AccountId, collection_mint: &AccountId) -> (found:
    Result<bool, MarketplaceError>)
    ensures
        found == approval(ledger@, ledger.spec_program_id(), *marketplace, *collection_mint),
{
    let program_id = ledger.program_id();
    match crate::address::derive(&whitelist_seeds(marketplace, collection_mint), &program_id) {
        Err(error) => Err(error),
        Ok((address, _)) => Ok(ledger.approved(&address, collection_mint)),
    }
}

/// Lists one unit of an asset at a price, and takes it into custody.
pub fn list(ledger: &mut Ledger, ctx: &List, price: u64) -> (done: Result<(), MarketplaceError>)
    ensures
        final(ledger).spec_program_id() == old(ledger).spec_program_id(),
        final(ledger)@ == list_outcome(
            old(ledger)@,
            old(ledger).spec_program_id(),
            *ctx,
            price,
        ).accounts,
        done == list_outcome(old(ledger)@, old(ledger).spec_program_id(), *ctx, price).result,
{
    let program_id = ledger.program_id();
    let whitelist = match crate::address::derive(
        &whitelist_seeds(&ctx.marketplace, &ctx.collection_mint),
        &program_id,
    ) {
        Err(error) => {
            return Err(error);
        },
        Ok((address, _)) => address,
    };
    if !ledger.approved(&whitelist, &ctx.collection_mint) {
        return Err(MarketplaceError::Unauthorized);
    }
    match validate_nft(&ctx.metadata.collection, &ctx.collection_mint) {
        Err(error) => {
            return Err(error);
        },
        Ok(_) => {},
    }
    match crate::address::derive(&vault_seeds(&ctx.listing), &program_id) {
        Err(error) => Err(error),
        Ok((vault, _)) => ledger.escrow(
            &ctx.listing,
            &vault,
            &ctx.maker,
            &ctx.maker_ata,
            &ctx.mint,
            price,
        ),
    }
}

/// Takes a listing down, and gives its unit back to the maker.
pub fn delist(ledger: &mut Ledger, ctx: &Delist) -> (done: Result<(), MarketplaceError>)
    ensures
        final(ledger).spec_program_id() == old(ledger).spec_program_id(),
        final(ledger)@ == delist_outcome(old(ledger)@, old(ledger).spec_program_id(), *ctx).accounts,
        done == delist_outcome(old(ledger)@, old(ledger).spec_program_id(), *ctx).result,
{
    let listed = match ledger.listing(&ctx.listing) {
        Some(listed) => listed,
        None => {
            return Err(MarketplaceError::Unauthorized);
        },
    };
    if listed.owner != ctx.maker {
        return Err(MarketplaceError::Unauthorized);
    }
    let program_id = ledger.program_id();
    match authority_for(vault_seeds(&ctx.listing), &program_id) {
        Err(error) => Err(error),
        Ok(authority) => ledger.release(
            &ctx.maker,
            &ctx.listing,
            &ctx.maker_ata,
            &ctx.vault,
            &authority,
        ),
    }
}

} // verus!
