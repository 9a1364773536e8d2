//! The ledger as mathematics: a map from addresses to accounts, and what each
//! step makes of it. A step that fails leaves the map as it was.

use crate::address::{spec_vault_seeds, vault_address, AccountId, AuthorityView};
use crate::errors::MarketplaceError;
use crate::state::{Account, Holding, Listing, Marketplace, Whitelist};
use vstd::prelude::*;

verus! {

/// The accounts after a step, and what the step reported.
pub struct Outcome {
    pub accounts: Map<AccountId, Account>,
    pub result: Result<(), MarketplaceError>,
}

/// The step failed, and changed nothing.
pub open spec fn rejected(accounts: Map<AccountId, Account>, error: MarketplaceError) -> Outcome {
    Outcome { accounts, result: Err(error) }
}

/// The step succeeded, and left these accounts.
pub open spec fn accepted(accounts: Map<AccountId, Account>) -> Outcome {
    Outcome { accounts, result: Ok(()) }
}

/// The marketplace stored at the address, if one is.
pub open spec fn marketplace_at(accounts: Map<AccountId, Account>, address: AccountId) -> Option<
    Marketplace,
> {
    if accounts.contains_key(address) {
        match accounts[address] {
            Account::Marketplace(marketplace) => Some(marketplace),
            _ => None,
        }
    } else {
        None
    }
}

/// The approval stored at the address, if one is.
pub open spec fn whitelist_at(accounts: Map<AccountId, Account>, address: AccountId) -> Option<
    Whitelist,
> {
    if accounts.contains_key(address) {
        match accounts[address] {
            Account::Whitelist(whitelist) => Some(whitelist),
            _ => None,
        }
    } else {
        None
    }
}

/// The listing stored at the address, if one is.
pub open spec fn listing_at(accounts: Map<AccountId, Account>, address: AccountId) -> Option<
    Listing,
> {
    if accounts.contains_key(address) {
        match accounts[address] {
            Account::Listing(listing) => Some(listing),
            _ => None,
        }
    } else {
        None
    }
}

/// The holding stored at the address, if one is.
pub open spec fn holding_at(accounts: Map<AccountId, Account>, address: AccountId) -> Option<
    Holding,
> {
    if accounts.contains_key(address) {
        match accounts[address] {
            Account::Holding(holding) => Some(holding),
            _ => None,
        }
    } else {
        None
    }
}

/// The units held at the address: none where no holding is stored there.
pub open spec fn units_at(accounts: Map<AccountId, Account>, address: AccountId) -> nat {
    match holding_at(accounts, address) {
        Some(holding) => holding.amount as nat,
        None => 0,
    }
}

/// Creating an account: the address must be free.
pub open spec fn create_outcome(
    accounts: Map<AccountId, Account>,
    address: AccountId,
    account: Account,
) -> Outcome {
    if accounts.contains_key(address) {
        rejected(accounts, MarketplaceError::AlreadyExists)
    } else {
        accepted(accounts.insert(address, account))
    }
}

/// The asset ledger moves units between two different holdings of one mint,
/// for the authority of the first, as far as it holds them and the second has
/// room.
pub open spec fn can_transfer(
    accounts: Map<AccountId, Account>,
    from: AccountId,
    to: AccountId,
    authority: AccountId,
    amount: u64,
) -> bool {
    &&& from != to
    &&& holding_at(accounts, from) matches Some(source)
    &&& holding_at(accounts, to) matches Some(target)
    &&& source.mint == target.mint
    &&& source.authority == authority
    &&& amount <= source.amount
    &&& target.amount + amount <= u64::MAX
}

/// The accounts once the units have moved.
pub open spec fn transferred(
    accounts: Map<AccountId, Account>,
    from: AccountId,
    to: AccountId,
    amount: u64,
) -> Map<AccountId, Account> {
    let source = holding_at(accounts, from).unwrap();
    let target = holding_at(accounts, to).unwrap();
    accounts.insert(
        from,
        Account::Holding(
            Holding {
                mint: source.mint,
                authority: source.authority,
                amount: (source.amount - amount) as u64,
            },
        ),
    ).insert(
        to,
        Account::Holding(
            Holding {
                mint: target.mint,
                authority: target.authority,
                amount: (target.amount + amount) as u64,
            },
        ),
    )
}

/// A move for an authority that has signed.
pub open spec fn transfer_outcome(
    accounts: Map<AccountId, Account>,
    from: AccountId,
    to: AccountId,
    authority: AccountId,
    amount: u64,
) -> Outcome {
    if can_transfer(accounts, from, to, authority, amount) {
        accepted(transferred(accounts, from, to, amount))
    } else {
        rejected(accounts, MarketplaceError::TransferFailed)
    }
}

/// A move for a derived authority: a program signs only for the addresses
/// derived under it.
pub open spec fn transfer_signed_outcome(
    accounts: Map<AccountId, Account>,
    program_id: AccountId,
    from: AccountId,
    to: AccountId,
    authority: AuthorityView,
    amount: u64,
) -> Outcome {
    if authority.program_id == program_id {
        transfer_outcome(accounts, from, to, authority.address, amount)
    } else {
        rejected(accounts, MarketplaceError::TransferFailed)
    }
}

/// The collection is approved where its registration is stored.
pub open spec fn approved_at(
    accounts: Map<AccountId, Account>,
    whitelist: AccountId,
    collection_mint: AccountId,
) -> bool {
    whitelist_at(accounts, whitelist) == Some(Whitelist { collection_mint })
}

/// An empty vault of the mint, under its own address as authority.
pub open spec fn empty_vault(vault: AccountId, mint: AccountId) -> Account {
    Account::Holding(Holding { mint, authority: vault, amount: 0 })
}

/// The vault's address is free, or holds the empty vault of the mint.
pub open spec fn vault_ready(accounts: Map<AccountId, Account>, vault: AccountId, mint: AccountId) -> bool {
    !accounts.contains_key(vault) || accounts[vault] == empty_vault(vault, mint)
}

/// Taking a unit into custody: the listing's address must be free and not
/// the vault's, and the vault ready; then one unit moves from the maker's
/// holding to the vault, and the listing is stored.
pub open spec fn escrow_outcome(
    accounts: Map<AccountId, Account>,
    listing: AccountId,
    vault: AccountId,
    maker: AccountId,
    maker_ata: AccountId,
    mint: AccountId,
    price: u64,
) -> Outcome {
    let opened = accounts.insert(vault, empty_vault(vault, mint));
    if accounts.contains_key(listing) || listing == vault || !vault_ready(accounts, vault, mint) {
        rejected(accounts, MarketplaceError::AlreadyExists)
    } else if !can_transfer(opened, maker_ata, vault, maker, 1) {
        rejected(accounts, MarketplaceError::TransferFailed)
    } else {
        accepted(
            transferred(opened, maker_ata, vault, 1).insert(
                listing,
                Account::Listing(Listing { owner: maker, mint, price }),
            ),
        )
    }
}

/// The authority is that of the listing's vault, derived under the program.
pub open spec fn controls_vault(authority: AuthorityView, program_id: AccountId, listing: AccountId) -> bool {
    authority.program_id == program_id && authority.seeds == spec_vault_seeds(listing)
}

/// The vault named by the caller is the one the authority stands for, and is
/// a holding under that authority.
pub open spec fn vault_in_custody(
    accounts: Map<AccountId, Account>,
    vault: AccountId,
    authority: AuthorityView,
) -> bool {
    &&& vault == authority.address
    &&& holding_at(accounts, vault) matches Some(held)
    &&& held.authority == vault
}

/// One unit of the mint can go back from the vault to a holding of the maker.
pub open spec fn returnable(
    accounts: Map<AccountId, Account>,
    vault: AccountId,
    maker: AccountId,
    maker_ata: AccountId,
    mint: AccountId,
) -> bool {
    &&& can_transfer(accounts, vault, maker_ata, vault, 1)
    &&& holding_at(accounts, vault).unwrap().mint == mint
    &&& holding_at(accounts, maker_ata).unwrap().authority == maker
}

/// Giving a unit back: the caller must own the listing and name its vault;
/// then one unit moves from the vault to the maker's holding, and the listing
/// is taken away.
pub open spec fn release_outcome(
    accounts: Map<AccountId, Account>,
    program_id: AccountId,
    maker: AccountId,
    listing: AccountId,
    maker_ata: AccountId,
    vault: AccountId,
    authority: AuthorityView,
) -> Outcome {
    match listing_at(accounts, listing) {
        None => rejected(accounts, MarketplaceError::Unauthorized),
        Some(listed) => if listed.owner != maker || !controls_vault(authority, program_id, listing)
            || !vault_in_custody(accounts, vault, authority) {
            rejected(accounts, MarketplaceError::Unauthorized)
        } else if !returnable(accounts, vault, maker, maker_ata, listed.mint) {
            rejected(accounts, MarketplaceError::TransferFailed)
        } else {
            accepted(transferred(accounts, vault, maker_ata, 1).remove(listing))
        },
    }
}

/// The listing stored at the address has its vault, and the vault holds
/// exactly one unit of the listing's mint under its own authority.
pub open spec fn holds_unit(
    accounts: Map<AccountId, Account>,
    program_id: AccountId,
    listing: AccountId,
) -> bool {
    &&& listing_at(accounts, listing) matches Some(listed)
    &&& vault_address(listing, program_id) matches Some(vault)
    &&& holding_at(accounts, vault) == Some(
        Holding { mint: listed.mint, authority: vault, amount: 1 },
    )
}

/// Every stored listing has a vault of its own that holds its unit.
pub open spec fn in_custody(accounts: Map<AccountId, Account>, program_id: AccountId) -> bool {
    &&& forall|listing: AccountId| #[trigger]
        listing_at(accounts, listing) is Some ==> holds_unit(accounts, program_id, listing)
    &&& forall|one: AccountId, other: AccountId|
        #[trigger] listing_at(accounts, one) is Some && #[trigger] listing_at(accounts, other)
            is Some && one != other ==> vault_address(one, program_id) != vault_address(
            other,
            program_id,
        )
}

/// The identity is the authority of no stored listing's vault. A vault's
/// authority is a derived address, for which nobody can sign.
pub open spec fn no_vault_authority(
    accounts: Map<AccountId, Account>,
    program_id: AccountId,
    signer: AccountId,
) -> bool {
    forall|listing: AccountId| #[trigger]
        listing_at(accounts, listing) is Some ==> vault_address(listing, program_id) != Some(
            signer,
        )
}

} // verus!
