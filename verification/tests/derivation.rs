use std::str::FromStr;

use anchor_lang::prelude::Pubkey;
use mint_lock_swap_nfts::constants::{
    flat_price, is_asset_program, is_system_program, program_id, ASSET_PROGRAM, PROGRAM_ID,
    PROTOCOL_SEED, SYSTEM_PROGRAM, UNITS_PER_COIN, VAULT_SEED,
};
use mint_lock_swap_nfts::derivation::{
    can_sign, can_sign_if_named, derive_vault_authority, find_protocol_address,
    find_vault_address,
};
use mint_lock_swap_nfts::Address;

fn address(tag: u8) -> Address {
    let mut bytes = [0u8; 32];
    bytes[0] = tag;
    bytes[31] = 7;
    Address::new(bytes)
}

#[test]
fn seeds_are_the_tags() {
    assert_eq!(&PROTOCOL_SEED[..], b"protocol");
    assert_eq!(&VAULT_SEED[..], b"vault");
}

#[test]
fn program_id_is_the_declared_address() {
    let declared = Pubkey::from_str("6FGwV4j1SekDP8Ww2RN5QYb5Rbt1KZap1mrkzGqpJAxk").unwrap();
    assert_eq!(PROGRAM_ID, declared.to_bytes());
    assert_eq!(program_id(), Address::new(declared.to_bytes()));
}

#[test]
fn asset_program_is_the_collaborator() {
    assert_eq!(ASSET_PROGRAM, mpl_core::ID.to_bytes());
    assert!(is_asset_program(&Address::new(mpl_core::ID.to_bytes())));
    assert!(!is_asset_program(&address(1)));
    assert!(!is_asset_program(&Address::new(SYSTEM_PROGRAM)));
}

#[test]
fn system_program_is_the_system_program() {
    assert_eq!(SYSTEM_PROGRAM, anchor_lang::system_program::ID.to_bytes());
    assert!(is_system_program(&Address::new([0u8; 32])));
    assert!(!is_system_program(&address(1)));
    assert!(!is_system_program(&Address::new(ASSET_PROGRAM)));
}

#[test]
fn flat_price_is_one_whole_coin() {
    assert_eq!(flat_price(), 1_000_000_000);
    assert_eq!(UNITS_PER_COIN, 1_000_000_000);
    assert_eq!(
        flat_price(),
        anchor_lang::solana_program::native_token::LAMPORTS_PER_SOL
    );
}

#[test]
fn protocol_address_is_the_one_the_search_finds() {
    let owner = address(3);
    let program = program_id();
    let (key, bump) = Pubkey::find_program_address(
        &[b"protocol", &owner.to_bytes()],
        &Pubkey::new_from_array(program.to_bytes()),
    );
    let found = find_protocol_address(&owner, &program);
    assert_eq!(found, Some((Address::new(key.to_bytes()), bump)));
    assert_ne!(found.unwrap().0, owner);
    assert_ne!(found.unwrap().0, program);
}

#[test]
fn vault_address_is_the_one_the_search_finds() {
    let asset = address(4);
    let program = program_id();
    let (key, bump) = Pubkey::find_program_address(
        &[b"vault", &asset.to_bytes()],
        &Pubkey::new_from_array(program.to_bytes()),
    );
    let found = find_vault_address(&asset, &program);
    assert_eq!(found, Some((Address::new(key.to_bytes()), bump)));
    assert_ne!(found.unwrap().0, asset);
}

#[test]
fn addresses_differ_by_tag_identity_and_program() {
    let program = program_id();
    let other_program = address(9);
    let vault = find_vault_address(&address(4), &program).unwrap().0;
    assert_ne!(vault, find_protocol_address(&address(4), &program).unwrap().0);
    assert_ne!(vault, find_vault_address(&address(5), &program).unwrap().0);
    assert_ne!(vault, find_vault_address(&address(4), &other_program).unwrap().0);
    assert_eq!(vault, find_vault_address(&address(4), &program).unwrap().0);
}

#[test]
fn stored_salt_byte_derives_the_vault_address_again() {
    let program = program_id();
    for tag in 0..20u8 {
        let asset = address(tag);
        let (vault, bump) = find_vault_address(&asset, &program).unwrap();
        assert_eq!(derive_vault_authority(&asset, bump, &program), Some(vault));
        assert!(bump >= 1);
    }
}

#[test]
fn another_salt_byte_derives_another_address_or_none() {
    let program = program_id();
    let asset = address(4);
    let (vault, bump) = find_vault_address(&asset, &program).unwrap();
    for other in 0..=255u8 {
        if other != bump {
            assert_ne!(derive_vault_authority(&asset, other, &program), Some(vault));
        }
        if other > bump {
            assert_eq!(derive_vault_authority(&asset, other, &program), None);
        }
    }
}

#[test]
fn derived_authority_is_what_the_key_derivation_gives() {
    let program = program_id();
    let asset = address(11);
    let id = Pubkey::new_from_array(program.to_bytes());
    for bump in [0u8, 1, 77, 200, 254, 255] {
        let expected = Pubkey::create_program_address(&[b"vault", &asset.to_bytes(), &[bump]], &id)
            .ok()
            .map(|key| Address::new(key.to_bytes()));
        assert_eq!(derive_vault_authority(&asset, bump, &program), expected);
    }
}

#[test]
fn signature_can_exist_for_points_of_the_curve_only() {
    let mut on = 0;
    let mut off = 0;
    for tag in 0..=255u8 {
        let a = address(tag);
        let expected = Pubkey::new_from_array(a.to_bytes()).is_on_curve();
        assert_eq!(can_sign(&a), expected);
        assert_eq!(can_sign_if_named(&Some(a)), expected);
        if expected {
            on += 1;
        } else {
            off += 1;
        }
    }
    assert!(on > 0);
    assert!(off > 0);
    assert!(can_sign_if_named(&None));
}

#[test]
fn derived_addresses_are_keyless() {
    let program = program_id();
    for tag in 0..50u8 {
        let (vault, bump) = find_vault_address(&address(tag), &program).unwrap();
        assert!(!can_sign(&vault));
        assert!(!can_sign(&find_protocol_address(&address(tag), &program).unwrap().0));
        assert!(!can_sign(&derive_vault_authority(&address(tag), bump, &program).unwrap()));
    }
}
