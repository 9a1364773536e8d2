use anchor_lang::prelude::Pubkey;
use anchor_marketplace_2023::address::{
    authority_for, marketplace_seeds, same_seeds, vault_seeds, whitelist_seeds, AccountId,
    MAX_SEEDS, MAX_SEED_LEN,
};
use anchor_marketplace_2023::errors::MarketplaceError;
use anchor_marketplace_2023::helpers::seeds;
use std::str::FromStr;

fn program() -> AccountId {
    let key = Pubkey::from_str("Rx94NM1t1bK1UXPZanDYZLF4vjrEBEpZfsxTdMnSiqR").unwrap();
    AccountId::new(key.to_bytes())
}

fn id(byte: u8) -> AccountId {
    AccountId::new([byte; 32])
}

fn base_point() -> AccountId {
    let mut bytes = [0x66u8; 32];
    bytes[0] = 0x58;
    AccountId::new(bytes)
}

#[test]
fn account_ids_compare_by_bytes() {
    let mut bytes = [7u8; 32];
    assert!(AccountId::new(bytes) == id(7));
    bytes[31] = 8;
    assert!(AccountId::new(bytes) != id(7));
    bytes[31] = 7;
    bytes[0] = 0;
    assert!(AccountId::new(bytes) != id(7));
    assert_eq!(id(9).bytes, [9u8; 32]);
}

#[test]
fn to_seed_gives_the_bytes() {
    let mut bytes = [0u8; 32];
    for i in 0..32 {
        bytes[i] = i as u8;
    }
    assert_eq!(AccountId::new(bytes).to_seed(), bytes.to_vec());
}

#[test]
fn marketplace_seeds_are_tag_and_name() {
    assert_eq!(marketplace_seeds("Gems"), vec![b"marketplace".to_vec(), b"Gems".to_vec()]);
    assert_eq!(
        marketplace_seeds("caf\u{e9}"),
        vec![b"marketplace".to_vec(), vec![0x63, 0x61, 0x66, 0xc3, 0xa9]]
    );
}

#[test]
fn whitelist_seeds_are_marketplace_and_mint() {
    assert_eq!(whitelist_seeds(&id(1), &id(2)), vec![vec![1u8; 32], vec![2u8; 32]]);
}

#[test]
fn vault_seeds_are_tag_and_listing() {
    assert_eq!(vault_seeds(&id(5)), vec![b"auth".to_vec(), vec![5u8; 32]]);
}

#[test]
fn derive_agrees_with_the_program_address_search() {
    let program = program();
    let derived = anchor_marketplace_2023::address::derive(&marketplace_seeds("Gems"), &program);
    let (address, bump) = derived.unwrap();
    let (expected, expected_bump) = Pubkey::find_program_address(
        &[b"marketplace", b"Gems"],
        &Pubkey::new_from_array(program.bytes),
    );
    assert_eq!(address.bytes, expected.to_bytes());
    assert_eq!(bump, expected_bump);
    assert!(address != program);
}

#[test]
fn derive_gives_the_same_address_for_the_same_seeds() {
    let program = program();
    let once = anchor_marketplace_2023::address::derive(&vault_seeds(&id(5)), &program).unwrap();
    let twice = anchor_marketplace_2023::address::derive(&vault_seeds(&id(5)), &program).unwrap();
    assert!(once.0 == twice.0);
    assert_eq!(once.1, twice.1);
}

#[test]
fn derive_depends_on_seeds_and_program() {
    let program = program();
    let gems = anchor_marketplace_2023::address::derive(&marketplace_seeds("Gems"), &program).unwrap();
    let gold = anchor_marketplace_2023::address::derive(&marketplace_seeds("Gold"), &program).unwrap();
    let elsewhere = anchor_marketplace_2023::address::derive(&marketplace_seeds("Gems"), &id(3)).unwrap();
    assert!(gems.0 != gold.0);
    assert!(gems.0 != elsewhere.0);
}

#[test]
fn derived_address_is_off_the_curve() {
    let program = program();
    let (address, bump) =
        anchor_marketplace_2023::address::derive(&vault_seeds(&id(5)), &program).unwrap();
    assert!(!address.is_on_curve());
    let rebuilt = Pubkey::create_program_address(
        &[b"auth", &[5u8; 32], &[bump]],
        &Pubkey::new_from_array(program.bytes),
    )
    .unwrap();
    assert_eq!(rebuilt.to_bytes(), address.bytes);
}

#[test]
fn is_on_curve_tells_curve_points() {
    assert!(base_point().is_on_curve());
    assert!(Pubkey::new_from_array(base_point().bytes).is_on_curve());
    let mut found_off = false;
    let mut found_on = false;
    for byte in 0..=255u8 {
        let candidate = id(byte);
        let expected = Pubkey::new_from_array([byte; 32]).is_on_curve();
        assert_eq!(candidate.is_on_curve(), expected);
        found_off = found_off || !expected;
        found_on = found_on || expected;
    }
    assert!(found_off);
    assert!(found_on);
}

#[test]
fn derive_is_exhausted_by_a_seed_that_is_too_long() {
    let program = program();
    let longest = vec![vec![1u8; MAX_SEED_LEN]];
    assert!(anchor_marketplace_2023::address::derive(&longest, &program).is_ok());
    let too_long = vec![vec![1u8; MAX_SEED_LEN + 1]];
    assert_eq!(
        anchor_marketplace_2023::address::derive(&too_long, &program),
        Err(MarketplaceError::DerivationExhausted)
    );
}

#[test]
fn derive_is_exhausted_by_too_many_seeds() {
    let program = program();
    let most = vec![vec![1u8]; MAX_SEEDS - 1];
    assert!(anchor_marketplace_2023::address::derive(&most, &program).is_ok());
    let too_many = vec![vec![1u8]; MAX_SEEDS];
    assert_eq!(
        anchor_marketplace_2023::address::derive(&too_many, &program),
        Err(MarketplaceError::DerivationExhausted)
    );
}

#[test]
fn derive_accepts_no_seeds_at_all() {
    let program = program();
    let (address, bump) = anchor_marketplace_2023::address::derive(&vec![], &program).unwrap();
    let (expected, expected_bump) =
        Pubkey::find_program_address(&[], &Pubkey::new_from_array(program.bytes));
    assert_eq!(address.bytes, expected.to_bytes());
    assert_eq!(bump, expected_bump);
}

#[test]
fn authority_is_that_of_the_derived_address() {
    let program = program();
    let (address, bump) =
        anchor_marketplace_2023::address::derive(&vault_seeds(&id(5)), &program).unwrap();
    let authority = match authority_for(vault_seeds(&id(5)), &program) {
        Ok(authority) => authority,
        Err(_) => panic!("the vault seeds derive an address"),
    };
    assert!(authority.address() == address);
    assert_eq!(authority.bump(), bump);
    assert!(authority.program_id() == program);
    assert!(!authority.address().is_on_curve());
}

#[test]
fn authority_knows_its_seeds() {
    let program = program();
    let authority = match authority_for(vault_seeds(&id(5)), &program) {
        Ok(authority) => authority,
        Err(_) => panic!("the vault seeds derive an address"),
    };
    assert!(authority.is_for(&vault_seeds(&id(5)), &program));
    assert!(!authority.is_for(&vault_seeds(&id(6)), &program));
    assert!(!authority.is_for(&vault_seeds(&id(5)), &id(3)));
    assert!(!authority.is_for(&marketplace_seeds("auth"), &program));
}

#[test]
fn signer_seeds_end_in_the_bump() {
    let program = program();
    let authority = match authority_for(vault_seeds(&id(5)), &program) {
        Ok(authority) => authority,
        Err(_) => panic!("the vault seeds derive an address"),
    };
    let signer = authority.signer_seeds();
    assert_eq!(signer, vec![b"auth".to_vec(), vec![5u8; 32], vec![authority.bump()]]);
    let parts: Vec<&[u8]> = signer.iter().map(|seed| seed.as_slice()).collect();
    let rebuilt =
        Pubkey::create_program_address(&parts, &Pubkey::new_from_array(program.bytes)).unwrap();
    assert_eq!(rebuilt.to_bytes(), authority.address().bytes);
}

#[test]
fn authority_is_refused_for_oversized_seeds() {
    let program = program();
    let made = authority_for(vec![vec![0u8; 33]], &program);
    assert!(matches!(made, Err(MarketplaceError::DerivationExhausted)));
}

#[test]
fn same_seeds_compares_every_byte() {
    let left = vec![vec![1u8, 2, 3], vec![], vec![4u8]];
    assert!(same_seeds(&left, &vec![vec![1u8, 2, 3], vec![], vec![4u8]]));
    assert!(!same_seeds(&left, &vec![vec![1u8, 2, 3], vec![]]));
    assert!(!same_seeds(&left, &vec![vec![1u8, 2, 3], vec![4u8], vec![]]));
    assert!(!same_seeds(&left, &vec![vec![1u8, 2, 9], vec![], vec![4u8]]));
    assert!(!same_seeds(&left, &vec![vec![1u8, 2, 3], vec![], vec![5u8]]));
    assert!(same_seeds(&vec![], &vec![]));
}

#[test]
fn seeds_wraps_one_signer() {
    let inner = vec![b"auth".to_vec(), vec![9u8]];
    assert_eq!(seeds(inner.clone()), vec![inner]);
}

#[test]
fn seed_limits_are_those_of_the_search() {
    assert_eq!(MAX_SEEDS, anchor_lang::solana_program::pubkey::MAX_SEEDS);
    assert_eq!(MAX_SEED_LEN, anchor_lang::solana_program::pubkey::MAX_SEED_LEN);
}
