use anchor_marketplace_2023::address::AccountId;
use anchor_marketplace_2023::errors::MarketplaceError;
use anchor_marketplace_2023::helpers::validate_nft;
use anchor_marketplace_2023::metadata::Collection;
use anchor_marketplace_2023::state::{Listing, Marketplace, Whitelist};

fn id(byte: u8) -> AccountId {
    AccountId::new([byte; 32])
}

#[test]
fn name_of_three_characters_is_invalid() {
    assert_eq!(Marketplace::validate_name("abc"), Err(MarketplaceError::InvalidName));
}

#[test]
fn name_of_four_characters_is_valid() {
    assert_eq!(Marketplace::validate_name("abcd"), Ok(()));
}

#[test]
fn name_of_thirty_two_characters_is_valid() {
    let name = "a".repeat(32);
    assert_eq!(Marketplace::validate_name(&name), Ok(()));
}

#[test]
fn name_of_thirty_three_characters_is_invalid() {
    let name = "a".repeat(33);
    assert_eq!(Marketplace::validate_name(&name), Err(MarketplaceError::InvalidName));
}

#[test]
fn empty_name_is_invalid() {
    assert_eq!(Marketplace::validate_name(""), Err(MarketplaceError::InvalidName));
}

#[test]
fn name_length_counts_characters() {
    assert_eq!(Marketplace::validate_name("\u{e9}\u{e9}"), Err(MarketplaceError::InvalidName));
    assert_eq!(Marketplace::validate_name("\u{e9}\u{e9}\u{e9}"), Err(MarketplaceError::InvalidName));
    assert_eq!(Marketplace::validate_name("\u{e9}\u{e9}\u{e9}\u{e9}"), Ok(()));
    assert_eq!(Marketplace::validate_name("\u{1f48e}abc"), Ok(()));
    let seventeen = "\u{e9}".repeat(17);
    assert_eq!(Marketplace::validate_name(&seventeen), Ok(()));
    let thirty_two = "\u{e9}".repeat(32);
    assert_eq!(Marketplace::validate_name(&thirty_two), Ok(()));
    let thirty_three = "\u{e9}".repeat(33);
    assert_eq!(Marketplace::validate_name(&thirty_three), Err(MarketplaceError::InvalidName));
}

#[test]
fn every_length_from_four_to_thirty_two_is_valid() {
    for len in 0..=40usize {
        let name = "n".repeat(len);
        let expected = if len >= 4 && len <= 32 { Ok(()) } else { Err(MarketplaceError::InvalidName) };
        assert_eq!(Marketplace::validate_name(&name), expected);
    }
}

#[test]
fn record_sizes() {
    assert_eq!(Marketplace::LEN, 78);
    assert_eq!(Whitelist::LEN, 40);
    assert_eq!(Listing::LEN, 80);
}

#[test]
fn missing_claim_is_collection_not_set() {
    assert_eq!(validate_nft(&None, &id(1)), Err(MarketplaceError::CollectionNotSet));
}

#[test]
fn claim_of_another_collection_is_invalid() {
    let claim = Collection { verified: true, key: id(2) };
    assert_eq!(validate_nft(&Some(claim), &id(1)), Err(MarketplaceError::InvalidCollection));
}

#[test]
fn unverified_claim_is_invalid() {
    let claim = Collection { verified: false, key: id(1) };
    assert_eq!(validate_nft(&Some(claim), &id(1)), Err(MarketplaceError::InvalidCollection));
}

#[test]
fn unverified_claim_of_another_collection_is_invalid() {
    let claim = Collection { verified: false, key: id(2) };
    assert_eq!(validate_nft(&Some(claim), &id(1)), Err(MarketplaceError::InvalidCollection));
}

#[test]
fn verified_claim_of_the_collection_is_accepted() {
    let claim = Collection { verified: true, key: id(1) };
    assert_eq!(validate_nft(&Some(claim), &id(1)), Ok(()));
}
