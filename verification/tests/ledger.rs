use mint_lock_swap_nfts::balances::Balances;
use mint_lock_swap_nfts::collaborator::{AssetRegistry, Metadata};
use mint_lock_swap_nfts::constants::program_id;
use mint_lock_swap_nfts::requests::{Payment, TransferRequest, VaultSeeds};
use mint_lock_swap_nfts::table::Table;
use mint_lock_swap_nfts::{Address, AssetRecord, Ledger, Protocol, Vault};

/// The first address from `[tag; 32]` on of which a signature can exist.
fn who(tag: u8) -> Address {
    let mut bytes = [tag; 32];
    while !mint_lock_swap_nfts::derivation::can_sign(&Address::new(bytes)) {
        bytes[31] = bytes[31].wrapping_add(1);
    }
    Address::new(bytes)
}

fn plain(name: &str) -> Metadata {
    Metadata { name: name.to_string(), uri: String::new(), plugins: None }
}

#[test]
fn address_keeps_its_bytes() {
    let mut bytes = [0u8; 32];
    for (i, b) in bytes.iter_mut().enumerate() {
        *b = i as u8;
    }
    let a = Address::new(bytes);
    assert_eq!(a.to_bytes(), bytes);
    assert!(a.same(&Address::new(bytes)));
    bytes[31] = 0;
    assert!(!a.same(&Address::new(bytes)));
    bytes[31] = 31;
    bytes[0] = 1;
    assert!(!a.same(&Address::new(bytes)));
}

#[test]
fn record_sizes() {
    assert_eq!(Protocol::INIT_SPACE, 17);
    assert_eq!(Vault::INIT_SPACE, 41);
}

#[test]
fn table_replaces_and_never_forgets() {
    let mut table: Table<u64> = Table::new();
    assert!(!table.contains(&who(1)));
    assert_eq!(table.get(&who(1)), None);
    table.insert(who(1), 10);
    table.insert(who(2), 20);
    assert_eq!(table.get(&who(1)), Some(&10));
    assert_eq!(table.get(&who(2)), Some(&20));
    table.insert(who(1), 11);
    assert_eq!(table.get(&who(1)), Some(&11));
    assert_eq!(table.get(&who(2)), Some(&20));
    assert!(table.contains(&who(2)));
    assert!(!table.contains(&who(3)));
}

#[test]
fn balances_start_at_zero_and_mint_adds() {
    let mut balances = Balances::new();
    assert_eq!(balances.get(&who(1)), 0);
    assert_eq!(balances.supply(), 0);
    assert!(balances.mint(&who(1), 5));
    assert!(balances.mint(&who(1), 7));
    assert!(balances.mint(&who(2), 1));
    assert_eq!(balances.get(&who(1)), 12);
    assert_eq!(balances.get(&who(2)), 1);
    assert_eq!(balances.supply(), 13);
}

#[test]
fn mint_refuses_what_does_not_fit() {
    let mut balances = Balances::new();
    assert!(balances.mint(&who(1), u64::MAX - 1));
    assert!(!balances.mint(&who(2), 2));
    assert_eq!(balances.get(&who(2)), 0);
    assert_eq!(balances.supply(), u64::MAX - 1);
    assert!(balances.mint(&who(2), 1));
    assert!(!balances.mint(&who(1), 1));
    assert_eq!(balances.supply(), u64::MAX);
    // Everything in circulation can move to one account.
    assert!(balances.transfer(&who(1), &who(2), u64::MAX - 1));
    assert_eq!(balances.get(&who(2)), u64::MAX);
    assert_eq!(balances.get(&who(1)), 0);
}

#[test]
fn transfer_moves_exactly_the_amount_or_nothing() {
    let mut balances = Balances::new();
    assert!(balances.mint(&who(1), 100));
    assert!(!balances.transfer(&who(1), &who(2), 101));
    assert_eq!(balances.get(&who(1)), 100);
    assert_eq!(balances.get(&who(2)), 0);
    assert!(balances.transfer(&who(1), &who(2), 40));
    assert_eq!(balances.get(&who(1)), 60);
    assert_eq!(balances.get(&who(2)), 40);
    assert!(balances.transfer(&who(1), &who(1), 60));
    assert_eq!(balances.get(&who(1)), 60);
    assert!(!balances.transfer(&who(1), &who(1), 61));
    assert!(balances.transfer(&who(3), &who(1), 0));
    assert!(!balances.transfer(&who(3), &who(1), 1));
    assert_eq!(balances.supply(), 100);
}

#[test]
fn ledger_pays_what_the_payer_holds() {
    let mut ledger = Ledger::new(program_id(), 0);
    assert_eq!(ledger.program(), program_id());
    assert!(ledger.fund(&who(1), 10));
    assert!(!ledger.fund(&who(2), u64::MAX));
    let payment = Payment { from: who(1), to: who(2), lamports: 4 };
    assert!(ledger.pay(&payment));
    assert_eq!(ledger.balance(&who(1)), 6);
    assert_eq!(ledger.balance(&who(2)), 4);
    assert!(ledger.pay(&Payment { from: who(2), to: who(1), lamports: 4 }));
    assert_eq!(ledger.balance(&who(1)), 10);
    assert_eq!(ledger.balance(&who(2)), 0);
    assert!(!ledger.pay(&Payment { from: who(1), to: who(2), lamports: 11 }));
    assert_eq!(ledger.balance(&who(1)), 10);
}

#[test]
fn registry_moves_an_asset_for_its_owner_or_delegate_only() {
    let mut registry = AssetRegistry::new();
    assert!(registry.create_asset(who(9), who(1), None, plain("nine")));
    assert!(!registry.transfer(&who(9), &None, &who(2), &who(2)));
    assert!(!registry.transfer(&who(8), &None, &who(1), &who(2)));
    assert!(!registry.transfer(&who(9), &Some(who(5)), &who(1), &who(2)));
    assert_eq!(registry.record(&who(9)).unwrap().owner, who(1));
    assert!(registry.approve(&who(9), &who(1), Some(who(3))));
    assert!(registry.transfer(&who(9), &None, &who(3), &who(2)));
    assert_eq!(
        registry.record(&who(9)),
        Some(AssetRecord { owner: who(2), collection: None, delegate: None })
    );
    // The transfer ended the delegation.
    assert!(!registry.transfer(&who(9), &None, &who(3), &who(3)));
    assert!(registry.transfer(&who(9), &None, &who(2), &who(1)));
    assert_eq!(registry.record(&who(9)).unwrap().owner, who(1));
    assert!(registry.approve(&who(9), &who(1), Some(who(3))));
    assert!(registry.approve(&who(9), &who(1), None));
    assert_eq!(registry.record(&who(9)).unwrap().delegate, None);
}

#[test]
fn registry_keeps_assets_and_collections_apart() {
    let mut registry = AssetRegistry::new();
    assert!(registry.create_collection(who(5), who(1), plain("set")));
    assert!(!registry.create_collection(who(5), who(2), plain("again")));
    assert!(!registry.create_asset(who(5), who(1), None, plain("clash")));
    assert!(!registry.create_asset(who(9), who(1), Some(who(6)), plain("orphan")));
    assert!(registry.create_asset(who(9), who(1), Some(who(5)), plain("nine")));
    assert!(!registry.create_collection(who(9), who(1), plain("clash")));
    assert_eq!(registry.update_authority(&who(5)), Some(who(1)));
    assert_eq!(registry.update_authority(&who(9)), None);
    assert_eq!(registry.record(&who(5)), None);
    assert_eq!(registry.describe(&who(5)).unwrap().name, "set");
    assert_eq!(registry.describe(&who(9)).unwrap().name, "nine");
    assert!(registry.describe(&who(6)).is_none());
    // An asset of a collection moves only when its collection is named.
    assert!(!registry.transfer(&who(9), &None, &who(1), &who(2)));
    assert!(registry.transfer(&who(9), &Some(who(5)), &who(1), &who(2)));
    assert_eq!(
        registry.record(&who(9)),
        Some(AssetRecord { owner: who(2), collection: Some(who(5)), delegate: None })
    );
}

#[test]
fn request_under_seeds_needs_the_derived_address() {
    let mut ledger = Ledger::new(program_id(), 0);
    let asset = who(9);
    let (vault, bump) =
        mint_lock_swap_nfts::derivation::find_vault_address(&asset, &program_id()).unwrap();
    let mint = mint_lock_swap_nfts::CreateAsset {
        payer: who(1),
        asset,
        collection: None,
        authority: None,
        owner: Some(vault),
        update_authority: None,
        system_program: Address::new([0; 32]),
        log_wrapper: None,
        mpl_core: who(0),
    };
    let args = mint_lock_swap_nfts::CreateAssetArgs {
        name: String::new(),
        uri: String::new(),
        plugins: None,
    };
    assert_eq!(mint.create_asset(&mut ledger, args), Ok(()));
    let request = |seeds: Option<VaultSeeds>| TransferRequest {
        asset,
        collection: None,
        payer: who(1),
        authority: Some(vault),
        new_owner: who(1),
        system_program: None,
        log_wrapper: None,
        program: who(0),
        signer_seeds: seeds,
    };
    let wrong = if bump == 255 { 254 } else { bump + 1 };
    assert!(!ledger.transfer_asset(&request(Some(VaultSeeds { asset, bump: wrong }))));
    assert!(!ledger.transfer_asset(&request(Some(VaultSeeds { asset: who(8), bump }))));
    assert!(!ledger.carry_out(&request(Some(VaultSeeds { asset, bump })), &None));
    assert!(!ledger.carry_out(&request(Some(VaultSeeds { asset, bump })), &Some(who(1))));
    // Without seeds the request rests on a signature, and none can exist.
    assert!(!ledger.transfer_asset(&request(None)));
    assert!(ledger.carry_out(&request(None), &Some(vault)));
    assert_eq!(ledger.asset(&asset).unwrap().owner, who(1));
    let back = TransferRequest {
        asset,
        collection: None,
        payer: who(1),
        authority: None,
        new_owner: vault,
        system_program: None,
        log_wrapper: None,
        program: who(0),
        signer_seeds: None,
    };
    assert!(ledger.transfer_asset(&back));
    assert_eq!(ledger.asset(&asset).unwrap().owner, vault);
    assert!(ledger.transfer_asset(&request(Some(VaultSeeds { asset, bump }))));
    assert_eq!(ledger.asset(&asset).unwrap().owner, who(1));
}
