//! The ledger: the accounts of one program, each at its address.

use crate::address::{vault_seeds, AccountId, Authority};
use crate::address_map::AddressMap;
use crate::errors::MarketplaceError;
use crate::model::{
    approved_at, create_outcome, escrow_outcome, holding_at, listing_at, marketplace_at,
    release_outcome, transfer_outcome, transfer_signed_outcome, units_at, whitelist_at,
};
use crate::state::{Account, Holding, Listing, Marketplace, Whitelist};
use vstd::prelude::*;

verus! {

/// The accounts of one program. No two accounts share an address.
pub struct Ledger {
    program_id: AccountId,
    accounts: AddressMap<Account>,
}

impl View for Ledger {
    type V = Map<AccountId, Account>;

    closed spec fn view(&self) -> Map<AccountId, Account> {
        self.accounts@
    }
}

impl Ledger {
    /// The program whose accounts the ledger holds.
    pub closed spec fn spec_program_id(&self) -> AccountId {
        self.program_id
    }

    /// A ledger of the program, with no account in it.
    pub fn new(program_id: AccountId) -> (ledger: Ledger)
        ensures
            ledger@ == Map::<AccountId, Account>::empty(),
            ledger.spec_program_id() == program_id,
    {
        Ledger { program_id, accounts: AddressMap::new() }
    }

    /// The program whose accounts the ledger holds.
    #[verifier::when_used_as_spec(spec_program_id)]
    pub fn program_id(&self) -> (id: AccountId)
        ensures
            id == self.spec_program_id(),
    {
        self.program_id
    }

    /// What the address holds.
    pub fn account(&self, address: &AccountId) -> (found: Option<&Account>)
        ensures
            found == (if self@.contains_key(*address) {
                Some(&self@[*address])
            } else {
                None
            }),
    {
        self.accounts.get(address)
    }

    /// The marketplace stored at the address, if one is.
    pub fn marketplace(&self, address: &AccountId) -> (found: Option<&Marketplace>)
        ensures
            match found {
                Some(marketplace) => marketplace_at(self@, *address) == Some(*marketplace),
                None => marketplace_at(self@, *address) is None,
            },
    {
        match self.accounts.get(address) {
            Some(Account::Marketplace(marketplace)) => Some(marketplace),
            _ => None,
        }
    }

    /// The approval stored at the address, if one is.
    pub fn whitelist(&self, address: &AccountId) -> (found: Option<Whitelist>)
        ensures
            found == whitelist_at(self@, *address),
    {
        match self.accounts.get(address) {
            Some(Account::Whitelist(whitelist)) => Some(*whitelist),
            _ => None,
        }
    }

    /// The listing stored at the address, if one is.
    pub fn listing(&self, address: &AccountId) -> (found: Option<Listing>)
        ensures
            found == listing_at(self@, *address),
    {
        match self.accounts.get(address) {
            Some(Account::Listing(listing)) => Some(*listing),
            _ => None,
        }
    }

    /// The holding stored at the address, if one is.
    pub fn holding(&self, address: &AccountId) -> (found: Option<Holding>)
        ensures
            found == holding_at(self@, *address),
    {
        match self.accounts.get(address) {
            Some(Account::Holding(holding)) => Some(*holding),
            _ => None,
        }
    }

    /// The units held at the address: none where it stores no holding.
    pub fn balance(&self, address: &AccountId) -> (units: u64)
        ensures
            units == units_at(self@, *address),
    {
        match self.holding(address) {
            Some(holding) => holding.amount,
            None => 0,
        }
    }

    /// Stores the account at the address, which must be free.
    pub fn create(&mut self, address: AccountId, account: Account) -> (created: Result<
        (),
        MarketplaceError,
    >)
        ensures
            final(self).spec_program_id() == old(self).spec_program_id(),
            final(self)@ == create_outcome(old(self)@, address, account).accounts,
            created == create_outcome(old(self)@, address, account).result,
    {
        if self.accounts.contains_key(&address) {
            Err(MarketplaceError::AlreadyExists)
        } else {
            self.accounts.insert(address, account);
            Ok(())
        }
    }

    /// Moves units from one holding to another, for an authority that has
    /// signed.
    pub fn transfer(
        &mut self,
        from: &AccountId,
        to: &AccountId,
        authority: &AccountId,
        amount: u64,
    ) -> (moved: Result<(), MarketplaceError>)
        ensures
            final(self).spec_program_id() == old(self).spec_program_id(),
            final(self)@ == transfer_outcome(old(self)@, *from, *to, *authority, amount).accounts,
            moved == transfer_outcome(old(self)@, *from, *to, *authority, amount).result,
    {
        let source = match self.holding(from) {
            Some(holding) => holding,
            None => {
                return Err(MarketplaceError::TransferFailed);
            },
        };
        let target = match self.holding(to) {
            Some(holding) => holding,
            None => {
                return Err(MarketplaceError::TransferFailed);
            },
        };
        if *from == *to || source.mint != target.mint || source.authority != *authority || amount
            > source.amount || amount > u64::MAX - target.amount {
            return Err(MarketplaceError::TransferFailed);
        }
        self.accounts.insert(
            *from,
            Account::Holding(
                Holding {
                    mint: source.mint,
                    authority: source.authority,
                    amount: source.amount - amount,
                },
            ),
        );
        self.accounts.insert(
            *to,
            Account::Holding(
                Holding {
                    mint: target.mint,
                    authority: target.authority,
                    amount: target.amount + amount,
                },
            ),
        );
        Ok(())
    }

    /// Moves units from one holding to another, for a derived authority.
    pub fn transfer_signed(
        &mut self,
        from: &AccountId,
        to: &AccountId,
        authority: &Authority,
        amount: u64,
    ) -> (moved: Result<(), MarketplaceError>)
        ensures
            final(self).spec_program_id() == old(self).spec_program_id(),
            final(self)@ == transfer_signed_outcome(
                old(self)@,
                old(self).spec_program_id(),
                *from,
                *to,
                authority@,
                amount,
            ).accounts,
            moved == transfer_signed_outcome(
                old(self)@,
                old(self).spec_program_id(),
                *from,
                *to,
                authority@,
                amount,
            ).result,
    {
        if authority.program_id() == self.program_id {
            let signer = authority.address();
            self.transfer(from, to, &signer, amount)
        } else {
            Err(MarketplaceError::TransferFailed)
        }
    }

    /// Whether the collection's registration is stored at the address.
    pub fn approved(&self, whitelist: &AccountId, collection_mint: &AccountId) -> (held: bool)
        ensures
            held == approved_at(self@, *whitelist, *collection_mint),
    {
        match self.whitelist(whitelist) {
            Some(found) => found.collection_mint == *collection_mint,
            None => false,
        }
    }

    /// Takes one unit of the mint from the maker's holding into the vault,
    /// and stores the listing.
    pub fn escrow(
        &mut self,
        listing: &AccountId,
        vault: &AccountId,
        maker: &AccountId,
        maker_ata: &AccountId,
        mint: &AccountId,
        price: u64,
    ) -> (taken: Result<(), MarketplaceError>)
        ensures
            final(self).spec_program_id() == old(self).spec_program_id(),
            final(self)@ == escrow_outcome(
                old(self)@,
                *listing,
                *vault,
                *maker,
                *maker_ata,
                *mint,
                price,
            ).accounts,
            taken == escrow_outcome(
                old(self)@,
                *listing,
                *vault,
                *maker,
                *maker_ata,
                *mint,
                price,
            ).result,
    {
        if self.accounts.contains_key(listing) || *listing == *vault {
            return Err(MarketplaceError::AlreadyExists);
        }
        let fresh = match self.accounts.get(vault) {
            None => true,
            Some(Account::Holding(held)) => {
                if held.mint == *mint && held.authority == *vault && held.amount == 0 {
                    false
                } else {
                    return Err(MarketplaceError::AlreadyExists);
                }
            },
            Some(_) => {
                return Err(MarketplaceError::AlreadyExists);
            },
        };
        self.accounts.insert(
            *vault,
            Account::Holding(Holding { mint: *mint, authority: *vault, amount: 0 }),
        );
        match self.transfer(maker_ata, vault, maker, 1) {
            Ok(()) => {
                self.accounts.insert(
                    *listing,
                    Account::Listing(Listing { owner: *maker, mint: *mint, price }),
                );
                Ok(())
            },
            Err(error) => {
                if fresh {
                    self.accounts.remove(vault);
                }
                proof {
                    assert(self@ =~= old(self)@);
                }
                Err(error)
            },
        }
    }

    /// Gives one unit back from the vault to the maker's holding, for the
    /// authority of the listing's vault, and takes the listing away.
    pub fn release(
        &mut self,
        maker: &AccountId,
        listing: &AccountId,
        maker_ata: &AccountId,
        vault: &AccountId,
        authority: &Authority,
    ) -> (given: Result<(), MarketplaceError>)
        ensures
            final(self).spec_program_id() == old(self).spec_program_id(),
            final(self)@ == release_outcome(
                old(self)@,
                old(self).spec_program_id(),
                *maker,
                *listing,
                *maker_ata,
                *vault,
                authority@,
            ).accounts,
            given == release_outcome(
                old(self)@,
                old(self).spec_program_id(),
                *maker,
                *listing,
                *maker_ata,
                *vault,
                authority@,
            ).result,
    {
        let listed = match self.listing(listing) {
            Some(listed) => listed,
            None => {
                return Err(MarketplaceError::Unauthorized);
            },
        };
        if listed.owner != *maker || !authority.is_for(&vault_seeds(listing), &self.program_id)
            || *vault != authority.address() {
            return Err(MarketplaceError::Unauthorized);
        }
        let held = match self.holding(vault) {
            Some(held) => held,
            None => {
                return Err(MarketplaceError::Unauthorized);
            },
        };
        if held.authority != *vault {
            return Err(MarketplaceError::Unauthorized);
        }
        let target = match self.holding(maker_ata) {
            Some(target) => target,
            None => {
                return Err(MarketplaceError::TransferFailed);
            },
        };
        if held.mint != listed.mint || target.authority != *maker {
            return Err(MarketplaceError::TransferFailed);
        }
        match self.transfer_signed(vault, maker_ata, authority, 1) {
            Ok(()) => {
                self.accounts.remove(listing);
                Ok(())
            },
            Err(error) => Err(error),
        }
    }
}

} // verus!
