//! Account identities and deterministic address derivation.
//!
//! An address is derived from a list of seeds under a program. The derived
//! address has no private key, so only code that can rebuild the seeds can act
//! for it: that ability is the [`Authority`] that [`authority_for`] hands out.

use crate::errors::MarketplaceError;
use anchor_lang::prelude::Pubkey;
use vstd::prelude::*;
use vstd::slice::slice_to_vec;
use vstd::utf8::encode_utf8;

verus! {

/// The identity of an account: 32 bytes.
#[derive(Clone, Copy, Debug)]
pub struct AccountId {
    pub bytes: [u8; 32],
}

impl View for AccountId {
    type V = Seq<u8>;

    open spec fn view(&self) -> Seq<u8> {
        self.bytes@
    }
}

impl PartialEq for AccountId {
    fn eq(&self, other: &AccountId) -> (same: bool) {
        let mut i: usize = 0;
        while i < 32
            invariant
                i <= 32,
                forall|j: int| 0 <= j < i ==> self.bytes[j] == other.bytes[j],
            decreases 32 - i,
        {
            if self.bytes[i] != other.bytes[i] {
                return false;
            }
            i = i + 1;
        }
        proof {
            assert(self.bytes =~= other.bytes);
        }
        true
    }
}

impl Eq for AccountId {

}

impl vstd::std_specs::cmp::PartialEqSpecImpl for AccountId {
    open spec fn obeys_eq_spec() -> bool {
        true
    }

    open spec fn eq_spec(&self, other: &AccountId) -> bool {
        *self == *other
    }
}

impl AccountId {
    /// The identity with these bytes.
    pub fn new(bytes: [u8; 32]) -> (id: AccountId)
        ensures
            id.bytes == bytes,
    {
        AccountId { bytes }
    }

    /// The identity's bytes, as a seed.
    pub fn to_seed(&self) -> (seed: Vec<u8>)
        ensures
            seed@ == self@,
    {
        slice_to_vec(self.bytes.as_slice())
    }

    /// Whether the identity is a point of the curve, as every identity with
    /// a private key is. For use off chain: a program on chain has no such
    /// test to call.
    pub fn is_on_curve(&self) -> (on: bool)
        ensures
            on == on_curve(*self),
    {
        is_curve_point(self)
    }
}

/// The domain tag of marketplace addresses: the bytes of `marketplace`.
pub open spec fn marketplace_tag() -> Seq<u8> {
    seq![109u8, 97u8, 114u8, 107u8, 101u8, 116u8, 112u8, 108u8, 97u8, 99u8, 101u8]
}

/// The domain tag of vault authorities: the bytes of `auth`.
pub open spec fn auth_tag() -> Seq<u8> {
    seq![97u8, 117u8, 116u8, 104u8]
}

/// The seeds of the marketplace of a name: the tag, then the name in UTF-8.
pub open spec fn spec_marketplace_seeds(name: Seq<char>) -> Seq<Seq<u8>> {
    seq![marketplace_tag(), encode_utf8(name)]
}

/// The seeds of a collection's registration with a marketplace: the
/// marketplace's address, then the collection's mint.
pub open spec fn spec_whitelist_seeds(marketplace: AccountId, collection_mint: AccountId) -> Seq<
    Seq<u8>,
> {
    seq![marketplace@, collection_mint@]
}

/// The seeds of the authority over a listing's vault: the tag, then the
/// listing's address.
pub open spec fn spec_vault_seeds(listing: AccountId) -> Seq<Seq<u8>> {
    seq![auth_tag(), listing@]
}

/// The address that the seeds derive under a program, with the bump byte that
/// was found for it, or `None` where no bump byte derives one.
pub uninterp spec fn program_address(seeds: Seq<Seq<u8>>, program_id: AccountId) -> Option<
    (AccountId, u8),
>;

/// Whether the address is a point of the curve on which key pairs lie. An
/// address that is not has no private key, and nobody can sign for it.
pub uninterp spec fn on_curve(address: AccountId) -> bool;

/// The most seeds that an address is derived from, the bump byte included.
pub const MAX_SEEDS: usize = 16;

/// The most bytes in one seed.
pub const MAX_SEED_LEN: usize = 32;

/// There are too many seeds to add a bump byte, or one seed is too long.
pub open spec fn oversized(seeds: Seq<Seq<u8>>) -> bool {
    seeds.len() >= MAX_SEEDS || exists|i: int| 0 <= i < seeds.len() && seeds[i].len() > MAX_SEED_LEN
}

/// What the seeds derive under a program: nothing where they are too many
/// or too long, and else the address and bump byte that the search finds.
pub open spec fn derived(seeds: Seq<Seq<u8>>, program_id: AccountId) -> Option<(AccountId, u8)> {
    if oversized(seeds) {
        None
    } else {
        program_address(seeds, program_id)
    }
}

/// The address alone that the seeds derive under a program.
pub open spec fn derived_address(seeds: Seq<Seq<u8>>, program_id: AccountId) -> Option<AccountId> {
    match derived(seeds, program_id) {
        Some((address, _)) => Some(address),
        None => None,
    }
}

/// The address of the marketplace of a name.
pub open spec fn marketplace_address(name: Seq<char>, program_id: AccountId) -> Option<AccountId> {
    derived_address(spec_marketplace_seeds(name), program_id)
}

/// The address of a collection's registration with a marketplace.
pub open spec fn whitelist_address(
    marketplace: AccountId,
    collection_mint: AccountId,
    program_id: AccountId,
) -> Option<AccountId> {
    derived_address(spec_whitelist_seeds(marketplace, collection_mint), program_id)
}

/// The address of a listing's vault, which is also the vault's authority.
pub open spec fn vault_address(listing: AccountId, program_id: AccountId) -> Option<AccountId> {
    derived_address(spec_vault_seeds(listing), program_id)
}

/// The seeds of the marketplace of a name.
pub fn marketplace_seeds(name: &str) -> (seeds: Vec<Vec<u8>>)
    ensures
        seeds.deep_view() == spec_marketplace_seeds(name@),
{
    let tag: [u8; 11] = [109, 97, 114, 107, 101, 116, 112, 108, 97, 99, 101];
    let mut seeds: Vec<Vec<u8>> = Vec::new();
    seeds.push(slice_to_vec(tag.as_slice()));
    seeds.push(slice_to_vec(name.as_bytes()));
    proof {
        assert(seeds@[0]@ =~= marketplace_tag());
        assert(seeds.deep_view() =~~= spec_marketplace_seeds(name@));
    }
    seeds
}

/// The seeds of a collection's registration with a marketplace.
pub fn whitelist_seeds(marketplace: &AccountId, collection_mint: &AccountId) -> (seeds: Vec<
    Vec<u8>,
>)
    ensures
        seeds.deep_view() == spec_whitelist_seeds(*marketplace, *collection_mint),
{
    let mut seeds: Vec<Vec<u8>> = Vec::new();
    seeds.push(marketplace.to_seed());
    seeds.push(collection_mint.to_seed());
    proof {
        assert(seeds.deep_view() =~~= spec_whitelist_seeds(*marketplace, *collection_mint));
    }
    seeds
}

/// The seeds of the authority over a listing's vault.
pub fn vault_seeds(listing: &AccountId) -> (seeds: Vec<Vec<u8>>)
    ensures
        seeds.deep_view() == spec_vault_seeds(*listing),
{
    let tag: [u8; 4] = [97, 117, 116, 104];
    let mut seeds: Vec<Vec<u8>> = Vec::new();
    seeds.push(slice_to_vec(tag.as_slice()));
    seeds.push(listing.to_seed());
    proof {
        assert(seeds@[0]@ =~= auth_tag());
        assert(seeds.deep_view() =~~= spec_vault_seeds(*listing));
    }
    seeds
}

/// Calls `Pubkey::is_on_curve`. The contract claims that what it returns
/// depends on the address's bytes alone.
#[verifier::external_body]
fn is_curve_point(address: &AccountId) -> (on: bool)
    ensures
        on == on_curve(*address),
{
    Pubkey::new_from_array(address.bytes).is_on_curve()
}

/// Calls `Pubkey::try_find_program_address`. The contract claims that what it
/// returns depends on the bytes of the seeds and of the program alone; that
/// an address it returns is not on the curve, since it takes no hash that is
/// a curve point; and that it returns none where the seeds with a bump byte
/// would be more than 16, or one seed has more than 32 bytes.
#[verifier::external_body]
fn try_find_program_address(seeds: &Vec<Vec<u8>>, program_id: &AccountId) -> (found: Option<
    (AccountId, u8),
>)
    ensures
        found == program_address(seeds.deep_view(), *program_id),
        found matches Some((address, _)) ==> !on_curve(address),
        oversized(seeds.deep_view()) ==> found is None,
{
    let parts: Vec<&[u8]> = seeds.iter().map(|s| s.as_slice()).collect();
    let program = Pubkey::new_from_array(program_id.bytes);
    Pubkey::try_find_program_address(&parts, &program).map(
        |(key, bump)| (AccountId { bytes: key.to_bytes() }, bump),
    )
}

/// What a derivation reports for what the seeds derive.
pub open spec fn derivation(found: Option<(AccountId, u8)>) -> Result<
    (AccountId, u8),
    MarketplaceError,
> {
    match found {
        Some(pair) => Ok(pair),
        None => Err(MarketplaceError::DerivationExhausted),
    }
}

/// Derives the address of the seeds under the program, and its bump byte.
/// The address is not on the curve, so it has no private key. Seeds that are
/// too many or too long derive none.
pub fn derive(seeds: &Vec<Vec<u8>>, program_id: &AccountId) -> (found: Result<
    (AccountId, u8),
    MarketplaceError,
>)
    ensures
        found == derivation(derived(seeds.deep_view(), *program_id)),
        found matches Ok((address, _)) ==> !on_curve(address),
{
    match try_find_program_address(seeds, program_id) {
        Some(found) => Ok(found),
        None => Err(MarketplaceError::DerivationExhausted),
    }
}

/// What an [`Authority`] stands for: the address, and how it was derived.
pub struct AuthorityView {
    pub program_id: AccountId,
    pub seeds: Seq<Seq<u8>>,
    pub address: AccountId,
    pub bump: u8,
}

/// The ability to act for a derived address. It is made by deriving the
/// address from its seeds, and in no other way.
pub struct Authority {
    program_id: AccountId,
    seeds: Vec<Vec<u8>>,
    address: AccountId,
    bump: u8,
}

impl View for Authority {
    type V = AuthorityView;

    closed spec fn view(&self) -> AuthorityView {
        AuthorityView {
            program_id: self.program_id,
            seeds: self.seeds.deep_view(),
            address: self.address,
            bump: self.bump,
        }
    }
}

/// Whether two lists of seeds hold the same bytes.
pub fn same_seeds(left: &Vec<Vec<u8>>, right: &Vec<Vec<u8>>) -> (same: bool)
    ensures
        same == (left.deep_view() == right.deep_view()),
{
    if left.len() != right.len() {
        proof {
            assert(left.deep_view().len() != right.deep_view().len());
        }
        return false;
    }
    let mut i: usize = 0;
    while i < left.len()
        invariant
            i <= left.len(),
            left.len() == right.len(),
            forall|k: int| 0 <= k < i ==> left@[k]@ == right@[k]@,
        decreases left.len() - i,
    {
        if left[i].len() != right[i].len() {
            proof {
                assert(left.deep_view()[i as int].len() != right.deep_view()[i as int].len());
            }
            return false;
        }
        let mut j: usize = 0;
        while j < left[i].len()
            invariant
                i < left.len(),
                left.len() == right.len(),
                j <= left@[i as int].len(),
                left@[i as int].len() == right@[i as int].len(),
                forall|k: int| 0 <= k < j ==> left@[i as int]@[k] == right@[i as int]@[k],
            decreases left@[i as int].len() - j,
        {
            if left[i][j] != right[i][j] {
                proof {
                    assert(left.deep_view()[i as int][j as int] != right.deep_view()[i as int][j as int]);
                }
                return false;
            }
            j = j + 1;
        }
        proof {
            assert(left@[i as int]@ =~= right@[i as int]@);
        }
        i = i + 1;
    }
    proof {
        assert(left.deep_view() =~~= right.deep_view());
    }
    true
}

impl Authority {
    #[verifier::type_invariant]
    spec fn well_formed(self) -> bool {
        &&& derived(self.seeds.deep_view(), self.program_id) == Some((self.address, self.bump))
        &&& !on_curve(self.address)
    }

    /// The program under which the address was derived.
    pub fn program_id(&self) -> (id: AccountId)
        ensures
            id == self@.program_id,
    {
        self.program_id
    }

    /// The address, which is the one that the seeds derive, and has no
    /// private key.
    pub fn address(&self) -> (id: AccountId)
        ensures
            id == self@.address,
            derived(self@.seeds, self@.program_id) == Some((id, self@.bump)),
            !on_curve(id),
    {
        proof {
            use_type_invariant(self);
        }
        self.address
    }

    /// The bump byte that was found for the address.
    pub fn bump(&self) -> (bump: u8)
        ensures
            bump == self@.bump,
    {
        self.bump
    }

    /// Whether the authority was derived from these seeds under this program.
    pub fn is_for(&self, seeds: &Vec<Vec<u8>>, program_id: &AccountId) -> (held: bool)
        ensures
            held == (self@.seeds == seeds.deep_view() && self@.program_id == *program_id),
    {
        self.program_id == *program_id && same_seeds(&self.seeds, seeds)
    }

    /// The seeds to sign with: the seeds of the address, then the bump byte.
    pub fn signer_seeds(&self) -> (seeds: Vec<Vec<u8>>)
        ensures
            seeds.deep_view() == self@.seeds.push(seq![self@.bump]),
    {
        let mut seeds: Vec<Vec<u8>> = Vec::new();
        let mut i: usize = 0;
        while i < self.seeds.len()
            invariant
                i <= self.seeds.len(),
                seeds.len() == i,
                forall|j: int| 0 <= j < i ==> seeds@[j]@ == self.seeds@[j]@,
            decreases self.seeds.len() - i,
        {
            seeds.push(slice_to_vec(self.seeds[i].as_slice()));
            i = i + 1;
        }
        let mut last: Vec<u8> = Vec::new();
        last.push(self.bump);
        seeds.push(last);
        proof {
            assert(seeds@[self.seeds.len() as int]@ =~= seq![self.bump]);
            assert(seeds.deep_view() =~~= self.seeds.deep_view().push(seq![self.bump]));
        }
        seeds
    }
}

/// What making an authority reports for what the seeds derive.
pub open spec fn authority_made(
    made: Result<Authority, MarketplaceError>,
    seeds: Seq<Seq<u8>>,
    program_id: AccountId,
) -> bool {
    match derived(seeds, program_id) {
        Some((address, bump)) => made matches Ok(authority) && authority@ == (AuthorityView {
            program_id,
            seeds,
            address,
            bump,
        }),
        None => made matches Err(e) && e == MarketplaceError::DerivationExhausted,
    }
}

/// The authority of the address that the seeds derive under the program.
pub fn authority_for(seeds: Vec<Vec<u8>>, program_id: &AccountId) -> (made: Result<
    Authority,
    MarketplaceError,
>)
    ensures
        authority_made(made, seeds.deep_view(), *program_id),
{
    match try_find_program_address(&seeds, program_id) {
        Some((address, bump)) => Ok(Authority { program_id: *program_id, seeds, address, bump }),
        None => Err(MarketplaceError::DerivationExhausted),
    }
}

} // verus!
