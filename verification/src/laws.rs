//! What holds of the operations taken together.

use crate::address::{
    marketplace_address, spec_marketplace_seeds, vault_address, whitelist_address, AccountId,
    MAX_SEED_LEN,
};
use crate::errors::MarketplaceError;
use crate::metadata::Collection;
use crate::helpers::nft_check;
use crate::model::{
    create_outcome, empty_vault, holding_at, holds_unit, in_custody, listing_at, marketplace_at,
    no_vault_authority, rejected, transfer_outcome, units_at, vault_ready, whitelist_at,
};
use crate::state::{Account, Holding, Listing, Marketplace, Whitelist};
use crate::{
    add_collection_outcome, approval, delist_outcome, initialize_outcome, list_outcome,
    AddCollection, Delist, Initialize, List,
};
use vstd::prelude::*;
use vstd::utf8::encode_utf8;

verus! {

/// An operation that fails leaves every account as it was.
pub proof fn lemma_failure_changes_nothing(
    accounts: Map<AccountId, Account>,
    program_id: AccountId,
    registering: Initialize,
    name: String,
    fee: u16,
    approving: AddCollection,
    listing: List,
    price: u64,
    delisting: Delist,
)
    ensures
        initialize_outcome(accounts, program_id, registering, name, fee).result is Err
            ==> initialize_outcome(accounts, program_id, registering, name, fee).accounts
            == accounts,
        add_collection_outcome(accounts, program_id, approving).result is Err
            ==> add_collection_outcome(accounts, program_id, approving).accounts == accounts,
        list_outcome(accounts, program_id, listing, price).result is Err ==> list_outcome(
            accounts,
            program_id,
            listing,
            price,
        ).accounts == accounts,
        delist_outcome(accounts, program_id, delisting).result is Err ==> delist_outcome(
            accounts,
            program_id,
            delisting,
        ).accounts == accounts,
{
}

/// Registration fails with `InvalidName` exactly when the name has fewer
/// than 4 or more than 32 characters, whatever the ledger holds.
pub proof fn lemma_initialize_checks_name(
    accounts: Map<AccountId, Account>,
    program_id: AccountId,
    ctx: Initialize,
    name: String,
    fee: u16,
)
    ensures
        initialize_outcome(accounts, program_id, ctx, name, fee).result == Err::<
            (),
            MarketplaceError,
        >(MarketplaceError::InvalidName) <==> !(4 <= name@.len() <= 32),
{
}

/// A name is one seed of its marketplace's address, and a seed has 32 bytes
/// at most: a valid name whose UTF-8 form is longer derives no address, and
/// registration under it fails with `DerivationExhausted`.
pub proof fn lemma_long_name_derives_nothing(
    accounts: Map<AccountId, Account>,
    program_id: AccountId,
    ctx: Initialize,
    name: String,
    fee: u16,
)
    requires
        Marketplace::valid_name(name@),
        encode_utf8(name@).len() > MAX_SEED_LEN,
    ensures
        initialize_outcome(accounts, program_id, ctx, name, fee) == rejected(
            accounts,
            MarketplaceError::DerivationExhausted,
        ),
{
    assert(spec_marketplace_seeds(name@)[1] == encode_utf8(name@));
}

/// A marketplace that is stored fits in the space kept for it: registration
/// succeeds only under a name of 32 bytes at most.
pub proof fn lemma_stored_name_fits(
    accounts: Map<AccountId, Account>,
    program_id: AccountId,
    ctx: Initialize,
    name: String,
    fee: u16,
)
    requires
        initialize_outcome(accounts, program_id, ctx, name, fee).result is Ok,
    ensures
        encode_utf8(name@).len() <= MAX_SEED_LEN,
        Marketplace::stored_len(name@) <= Marketplace::LEN,
{
    assert(spec_marketplace_seeds(name@)[1] == encode_utf8(name@));
}

/// A marketplace is registered once under a name. With a valid name,
/// registration succeeds exactly when the name derives an address, which a
/// name of 32 bytes at most does unless no bump byte is found, and that
/// address is free; it then stores the record there, and a later registration
/// under the same name, by anyone and with any fee, fails with
/// `AlreadyExists` and changes nothing.
pub proof fn lemma_initialize_once(
    accounts: Map<AccountId, Account>,
    program_id: AccountId,
    first: Initialize,
    name: String,
    fee: u16,
    second: Initialize,
    same_name: String,
    other_fee: u16,
)
    requires
        Marketplace::valid_name(name@),
        same_name@ == name@,
    ensures
        ({
            let once = initialize_outcome(accounts, program_id, first, name, fee);
            let twice = initialize_outcome(once.accounts, program_id, second, same_name, other_fee);
            &&& once.result is Ok <==> marketplace_address(name@, program_id) is Some
                && !accounts.contains_key(marketplace_address(name@, program_id).unwrap())
            &&& once.result is Ok ==> once.accounts == accounts.insert(
                marketplace_address(name@, program_id).unwrap(),
                Account::Marketplace(Marketplace { admin: first.admin, fee, name }),
            )
            &&& once.result is Ok ==> twice == rejected(
                once.accounts,
                MarketplaceError::AlreadyExists,
            )
        }),
{
}

/// Only the admin of a marketplace approves collections for it: a caller who
/// is not the admin of a marketplace stored at the address is refused with
/// `Unauthorized`, and no record is created.
pub proof fn lemma_add_collection_needs_admin(
    accounts: Map<AccountId, Account>,
    program_id: AccountId,
    ctx: AddCollection,
)
    requires
        marketplace_at(accounts, ctx.marketplace) matches Some(marketplace) ==> marketplace.admin
            != ctx.admin,
    ensures
        add_collection_outcome(accounts, program_id, ctx) == rejected(
            accounts,
            MarketplaceError::Unauthorized,
        ),
{
}

/// A collection is approved exactly where its registration is stored: once
/// the admin has added it, it is approved.
pub proof fn lemma_added_collection_is_approved(
    accounts: Map<AccountId, Account>,
    program_id: AccountId,
    ctx: AddCollection,
)
    requires
        add_collection_outcome(accounts, program_id, ctx).result is Ok,
    ensures
        approval(accounts, program_id, ctx.marketplace, ctx.mint) == Ok::<bool, MarketplaceError>(
            false,
        ),
        approval(
            add_collection_outcome(accounts, program_id, ctx).accounts,
            program_id,
            ctx.marketplace,
            ctx.mint,
        ) == Ok::<bool, MarketplaceError>(true),
{
}

/// Nothing but adding a collection approves one: registering a marketplace,
/// listing and delisting leave every approval as it was.
pub proof fn lemma_only_add_collection_approves(
    accounts: Map<AccountId, Account>,
    program_id: AccountId,
    registering: Initialize,
    name: String,
    fee: u16,
    listing: List,
    price: u64,
    delisting: Delist,
    marketplace: AccountId,
    collection_mint: AccountId,
)
    ensures
        approval(
            initialize_outcome(accounts, program_id, registering, name, fee).accounts,
            program_id,
            marketplace,
            collection_mint,
        ) == approval(accounts, program_id, marketplace, collection_mint),
        approval(
            list_outcome(accounts, program_id, listing, price).accounts,
            program_id,
            marketplace,
            collection_mint,
        ) == approval(accounts, program_id, marketplace, collection_mint),
        approval(
            delist_outcome(accounts, program_id, delisting).accounts,
            program_id,
            marketplace,
            collection_mint,
        ) == approval(accounts, program_id, marketplace, collection_mint),
{
}

/// Adding a collection approves that collection for that marketplace, and
/// leaves the approval of every pair with another address as it was.
pub proof fn lemma_add_collection_approves_no_other(
    accounts: Map<AccountId, Account>,
    program_id: AccountId,
    ctx: AddCollection,
    marketplace: AccountId,
    collection_mint: AccountId,
)
    requires
        whitelist_address(marketplace, collection_mint, program_id) != whitelist_address(
            ctx.marketplace,
            ctx.mint,
            program_id,
        ),
    ensures
        approval(
            add_collection_outcome(accounts, program_id, ctx).accounts,
            program_id,
            marketplace,
            collection_mint,
        ) == approval(accounts, program_id, marketplace, collection_mint),
{
}

/// A listing needs the unit: where all else is in order and the listing's
/// address and vault are free, a maker whose holding has no unit fails with
/// `TransferFailed`.
pub proof fn lemma_list_needs_the_unit(
    accounts: Map<AccountId, Account>,
    program_id: AccountId,
    ctx: List,
    price: u64,
)
    requires
        approval(accounts, program_id, ctx.marketplace, ctx.collection_mint) == Ok::<
            bool,
            MarketplaceError,
        >(true),
        nft_check(ctx.metadata.collection, ctx.collection_mint) is Ok,
        vault_address(ctx.listing, program_id) is Some,
        !accounts.contains_key(ctx.listing),
        vault_address(ctx.listing, program_id) != Some(ctx.listing),
        vault_ready(accounts, vault_address(ctx.listing, program_id).unwrap(), ctx.mint),
        units_at(accounts, ctx.maker_ata) == 0,
    ensures
        list_outcome(accounts, program_id, ctx, price) == rejected(
            accounts,
            MarketplaceError::TransferFailed,
        ),
{
}

/// Nobody signs for a vault: a vault is its own authority, and a move out of
/// it for any other signer fails with `TransferFailed`.
pub proof fn lemma_vault_moves_for_its_authority_only(
    accounts: Map<AccountId, Account>,
    vault: AccountId,
    to: AccountId,
    signer: AccountId,
    amount: u64,
)
    requires
        holding_at(accounts, vault) matches Some(held) && held.authority == vault,
        signer != vault,
    ensures
        transfer_outcome(accounts, vault, to, signer, amount) == rejected(
            accounts,
            MarketplaceError::TransferFailed,
        ),
{
}

/// A listing needs a verified claim of the approved collection. With the
/// collection approved, metadata with no claim fails with `CollectionNotSet`,
/// and a claim of another collection or an unverified claim fails with
/// `InvalidCollection`. A listing that succeeds had the collection approved
/// and carried the verified claim of it.
pub proof fn lemma_list_needs_verified_claim(
    accounts: Map<AccountId, Account>,
    program_id: AccountId,
    ctx: List,
    price: u64,
)
    ensures
        ({
            let approved = approval(accounts, program_id, ctx.marketplace, ctx.collection_mint)
                == Ok::<bool, MarketplaceError>(true);
            let listed = list_outcome(accounts, program_id, ctx, price);
            &&& approved && ctx.metadata.collection is None ==> listed == rejected(
                accounts,
                MarketplaceError::CollectionNotSet,
            )
            &&& forall|claim: Collection|
                approved && ctx.metadata.collection == Some(claim) && (claim.key
                    != ctx.collection_mint || !claim.verified) ==> listed == rejected(
                    accounts,
                    MarketplaceError::InvalidCollection,
                )
            &&& listed.result is Ok ==> approved && ctx.metadata.collection == Some(
                Collection { verified: true, key: ctx.collection_mint },
            )
        }),
{
}

/// Listing and then delisting gives the unit back. After a listing that
/// succeeded, the listing is stored, its vault holds exactly one unit and the
/// maker's holding one less. Delisting it then succeeds: the maker's holding
/// is what it was before the listing, the vault holds nothing, the listing is
/// gone, and no other account has changed.
pub proof fn lemma_list_delist_round_trip(
    accounts: Map<AccountId, Account>,
    program_id: AccountId,
    ctx: List,
    price: u64,
)
    requires
        list_outcome(accounts, program_id, ctx, price).result is Ok,
    ensures
        ({
            let listed = list_outcome(accounts, program_id, ctx, price).accounts;
            let vault = vault_address(ctx.listing, program_id).unwrap();
            let back = Delist {
                maker: ctx.maker,
                listing: ctx.listing,
                maker_ata: ctx.maker_ata,
                vault,
            };
            let delisted = delist_outcome(listed, program_id, back);
            &&& listing_at(listed, ctx.listing) == Some(
                Listing { owner: ctx.maker, mint: ctx.mint, price },
            )
            &&& holding_at(listed, vault) == Some(
                Holding { mint: ctx.mint, authority: vault, amount: 1 },
            )
            &&& units_at(listed, ctx.maker_ata) + 1 == units_at(accounts, ctx.maker_ata)
            &&& delisted.result is Ok
            &&& holding_at(delisted.accounts, ctx.maker_ata) == holding_at(accounts, ctx.maker_ata)
            &&& units_at(delisted.accounts, vault) == 0
            &&& !delisted.accounts.contains_key(ctx.listing)
            &&& delisted.accounts == accounts.insert(vault, empty_vault(vault, ctx.mint))
        }),
{
}

/// Only the owner of a listing delists it: a caller who does not own a
/// listing stored at the address is refused with `Unauthorized`, and the
/// listing and its vault stay as they are.
pub proof fn lemma_delist_needs_owner(
    accounts: Map<AccountId, Account>,
    program_id: AccountId,
    ctx: Delist,
)
    requires
        listing_at(accounts, ctx.listing) matches Some(listed) ==> listed.owner != ctx.maker,
    ensures
        delist_outcome(accounts, program_id, ctx) == rejected(
            accounts,
            MarketplaceError::Unauthorized,
        ),
{
}

/// A delisting must name the vault that the listing derives: with any other
/// vault it is refused with `Unauthorized`, whoever asks.
pub proof fn lemma_delist_needs_derived_vault(
    accounts: Map<AccountId, Account>,
    program_id: AccountId,
    ctx: Delist,
)
    requires
        vault_address(ctx.listing, program_id) is Some,
        vault_address(ctx.listing, program_id) != Some(ctx.vault),
    ensures
        delist_outcome(accounts, program_id, ctx) == rejected(
            accounts,
            MarketplaceError::Unauthorized,
        ),
{
}

/// Marketplaces and approvals are written once: no operation changes or
/// removes one that is stored.
pub proof fn lemma_records_are_kept(
    accounts: Map<AccountId, Account>,
    program_id: AccountId,
    registering: Initialize,
    name: String,
    fee: u16,
    approving: AddCollection,
    listing: List,
    price: u64,
    delisting: Delist,
    address: AccountId,
)
    requires
        marketplace_at(accounts, address) is Some || whitelist_at(accounts, address) is Some,
    ensures
        initialize_outcome(accounts, program_id, registering, name, fee).accounts[address]
            == accounts[address],
        add_collection_outcome(accounts, program_id, approving).accounts[address]
            == accounts[address],
        list_outcome(accounts, program_id, listing, price).accounts[address] == accounts[address],
        delist_outcome(accounts, program_id, delisting).accounts[address] == accounts[address],
        initialize_outcome(accounts, program_id, registering, name, fee).accounts.contains_key(
            address,
        ),
        add_collection_outcome(accounts, program_id, approving).accounts.contains_key(address),
        list_outcome(accounts, program_id, listing, price).accounts.contains_key(address),
        delist_outcome(accounts, program_id, delisting).accounts.contains_key(address),
{
}

/// Registering a marketplace, approving a collection, and creating an account
/// at a free address keep every listing's unit in its vault.
pub proof fn lemma_custody_outlasts_records(
    accounts: Map<AccountId, Account>,
    program_id: AccountId,
    registering: Initialize,
    name: String,
    fee: u16,
    approving: AddCollection,
    address: AccountId,
    account: Account,
)
    requires
        in_custody(accounts, program_id),
        !(account is Listing),
    ensures
        in_custody(
            initialize_outcome(accounts, program_id, registering, name, fee).accounts,
            program_id,
        ),
        in_custody(add_collection_outcome(accounts, program_id, approving).accounts, program_id),
        in_custody(create_outcome(accounts, address, account).accounts, program_id),
{
    lemma_custody_outlasts_create(accounts, program_id, address, account);
    if initialize_outcome(accounts, program_id, registering, name, fee).result is Ok {
        lemma_custody_outlasts_create(
            accounts,
            program_id,
            marketplace_address(name@, program_id).unwrap(),
            Account::Marketplace(Marketplace { admin: registering.admin, fee, name }),
        );
    }
    if add_collection_outcome(accounts, program_id, approving).result is Ok {
        lemma_custody_outlasts_create(
            accounts,
            program_id,
            whitelist_address(approving.marketplace, approving.mint, program_id).unwrap(),
            Account::Whitelist(Whitelist { collection_mint: approving.mint }),
        );
    }
}

proof fn lemma_custody_outlasts_create(
    accounts: Map<AccountId, Account>,
    program_id: AccountId,
    address: AccountId,
    account: Account,
)
    requires
        in_custody(accounts, program_id),
        !(account is Listing),
    ensures
        in_custody(create_outcome(accounts, address, account).accounts, program_id),
{
    let after = create_outcome(accounts, address, account).accounts;
    assert forall|listing: AccountId| #[trigger] listing_at(after, listing) is Some implies holds_unit(
        after,
        program_id,
        listing,
    ) by {
        assert(listing_at(accounts, listing) is Some);
        assert(holds_unit(accounts, program_id, listing));
    }
    assert forall|one: AccountId, other: AccountId|
        #[trigger] listing_at(after, one) is Some && #[trigger] listing_at(after, other) is Some
            && one != other implies vault_address(one, program_id) != vault_address(
        other,
        program_id,
    ) by {
        assert(listing_at(accounts, one) is Some);
        assert(listing_at(accounts, other) is Some);
    }
}

/// Listing keeps every listing's unit in its vault, the new one's too, as
/// long as the maker is no vault's authority.
pub proof fn lemma_custody_outlasts_list(
    accounts: Map<AccountId, Account>,
    program_id: AccountId,
    ctx: List,
    price: u64,
)
    requires
        in_custody(accounts, program_id),
        no_vault_authority(accounts, program_id, ctx.maker),
    ensures
        in_custody(list_outcome(accounts, program_id, ctx, price).accounts, program_id),
{
    let after = list_outcome(accounts, program_id, ctx, price).accounts;
    if list_outcome(accounts, program_id, ctx, price).result is Ok {
        assert forall|listing: AccountId| #[trigger]
            listing_at(after, listing) is Some implies holds_unit(after, program_id, listing) by {
            if listing != ctx.listing {
                assert(listing_at(accounts, listing) is Some);
                assert(holds_unit(accounts, program_id, listing));
            }
        }
        assert forall|one: AccountId, other: AccountId|
            #[trigger] listing_at(after, one) is Some && #[trigger] listing_at(after, other)
                is Some && one != other implies vault_address(one, program_id) != vault_address(
            other,
            program_id,
        ) by {
            if one != ctx.listing {
                assert(listing_at(accounts, one) is Some);
                assert(holds_unit(accounts, program_id, one));
            }
            if other != ctx.listing {
                assert(listing_at(accounts, other) is Some);
                assert(holds_unit(accounts, program_id, other));
            }
        }
    }
}

/// Delisting keeps every other listing's unit in its vault, as long as the
/// maker is no vault's authority.
pub proof fn lemma_custody_outlasts_delist(
    accounts: Map<AccountId, Account>,
    program_id: AccountId,
    ctx: Delist,
)
    requires
        in_custody(accounts, program_id),
        no_vault_authority(accounts, program_id, ctx.maker),
    ensures
        in_custody(delist_outcome(accounts, program_id, ctx).accounts, program_id),
{
    let after = delist_outcome(accounts, program_id, ctx).accounts;
    if delist_outcome(accounts, program_id, ctx).result is Ok {
        assert(listing_at(accounts, ctx.listing) is Some);
        assert(holds_unit(accounts, program_id, ctx.listing));
        assert forall|listing: AccountId| #[trigger]
            listing_at(after, listing) is Some implies holds_unit(after, program_id, listing) by {
            assert(listing_at(accounts, listing) is Some);
            assert(holds_unit(accounts, program_id, listing));
        }
        assert forall|one: AccountId, other: AccountId|
            #[trigger] listing_at(after, one) is Some && #[trigger] listing_at(after, other)
                is Some && one != other implies vault_address(one, program_id) != vault_address(
            other,
            program_id,
        ) by {
            assert(listing_at(accounts, one) is Some);
            assert(listing_at(accounts, other) is Some);
        }
    }
}

} // verus!
