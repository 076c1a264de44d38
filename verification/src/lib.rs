//! A custody vault for transferable assets.
//!
//! A lock charges the fee of a protocol and moves an asset to an address
//! that is derived from the asset and has no private key. A swap pays the
//! previous owner and releases the asset to the buyer, on the proof that the
//! program derives that address. The operations work on a [`Ledger`], which
//! holds the native currency, the records of the program and the books of
//! the asset-management collaborator; each operation takes effect as a whole
//! or not at all.

use vstd::prelude::*;

pub mod address;
pub mod balances;
pub mod collaborator;
pub mod constants;
pub mod contexts;
pub mod derivation;
pub mod errors;
pub mod laws;
pub mod ledger;
pub mod requests;
pub mod states;
pub mod table;

pub use address::Address;
pub use collaborator::{AssetRecord, Metadata};
pub use contexts::{
    CreateAsset, CreateAssetArgs, CreateCollection, CreateCollectionArgs, InitializeProtocol,
    LockAsset, SwapAsset,
};
pub use errors::EscrowError;
pub use ledger::{Ledger, LedgerState};
pub use states::{Protocol, Vault};

use crate::balances::moved;
use crate::constants::flat_price;
use crate::derivation::{find_protocol_address, find_vault_address};

verus! {

/// Creates the protocol configuration of the payer, with the fee `rent_fee`
/// and the salt byte that derives its address.
///
/// On success a read of the configuration gives the fee as it was
/// submitted. On an error the ledger is as before.
pub fn initialize_protocol(ledger: &mut Ledger, accounts: &InitializeProtocol, rent_fee: u64) -> (r:
    Result<(), EscrowError>)
    requires
        old(ledger).wf(),
    ensures
        final(ledger).wf(),
        match accounts.outcome(old(ledger)@, rent_fee) {
            Ok(s) => r is Ok && final(ledger)@ == s,
            Err(e) => r == Err::<(), EscrowError>(e) && final(ledger)@ == old(ledger)@,
        },
        r is Ok ==> {
            &&& final(ledger)@.protocols.dom().contains(accounts.protocol)
            &&& final(ledger)@.protocols[accounts.protocol].rent_fee == rent_fee
        },
{
    let signed = accounts.signers_can_sign();
    let found = find_protocol_address(&accounts.payer, &ledger.program);
    match accounts.check_addresses(signed, &found) {
        Ok(bump) => accounts.initialize_protocol(ledger, rent_fee, bump),
        Err(e) => Err(e),
    }
}

/// Asks the collaborator to create a collection. On an error the ledger is
/// as before.
pub fn create_collection(ledger: &mut Ledger, accounts: &CreateCollection, args: CreateCollectionArgs) -> (r:
    Result<(), EscrowError>)
    requires
        old(ledger).wf(),
    ensures
        final(ledger).wf(),
        match accounts.outcome(old(ledger)@, args@) {
            Ok(s) => r is Ok && final(ledger)@ == s,
            Err(e) => r == Err::<(), EscrowError>(e) && final(ledger)@ == old(ledger)@,
        },
{
    match accounts.check_addresses(accounts.signers_can_sign()) {
        Ok(_) => accounts.create_collection(ledger, args),
        Err(e) => Err(e),
    }
}

/// Asks the collaborator to create an asset. On an error the ledger is as
/// before.
pub fn create_asset(ledger: &mut Ledger, accounts: &CreateAsset, args: CreateAssetArgs) -> (r: Result<
    (),
    EscrowError,
>)
    requires
        old(ledger).wf(),
    ensures
        final(ledger).wf(),
        match accounts.outcome(old(ledger)@, args@) {
            Ok(s) => r is Ok && final(ledger)@ == s,
            Err(e) => r == Err::<(), EscrowError>(e) && final(ledger)@ == old(ledger)@,
        },
{
    match accounts.check_addresses(accounts.signers_can_sign()) {
        Ok(_) => accounts.create_asset(ledger, args),
        Err(e) => Err(e),
    }
}

/// Locks an asset: charges the fee of the protocol and moves the asset into
/// the custody of its vault.
///
/// On success the asset is in escrow under its vault record, and the record
/// names the payer as previous owner. On an error the ledger is as before.
pub fn lock_asset(ledger: &mut Ledger, accounts: &LockAsset) -> (r: Result<(), EscrowError>)
    requires
        old(ledger).wf(),
    ensures
        final(ledger).wf(),
        match accounts.outcome(old(ledger)@) {
            Ok(s) => r is Ok && final(ledger)@ == s,
            Err(e) => r == Err::<(), EscrowError>(e) && final(ledger)@ == old(ledger)@,
        },
        r is Ok ==> {
            &&& final(ledger)@.escrows(accounts.asset, accounts.vault)
            &&& final(ledger)@.vaults[accounts.vault].previous_owner == accounts.payer
        },
{
    let signed = accounts.signers_can_sign();
    let vault_found = find_vault_address(&accounts.asset, &ledger.program);
    let protocol_found = find_protocol_address(&accounts.owner, &ledger.program);
    match accounts.check_addresses(signed, &vault_found, &protocol_found) {
        Ok(bump) => accounts.lock_asset(ledger, bump),
        Err(e) => Err(e),
    }
}

/// Swaps an asset: pays the flat price of one whole coin to the previous
/// owner and releases the asset from its vault to the payer.
///
/// On success the payer owns the asset and the vault record is as before.
/// On an error the ledger is as before.
pub fn swap_asset(ledger: &mut Ledger, accounts: &SwapAsset) -> (r: Result<(), EscrowError>)
    requires
        old(ledger).wf(),
    ensures
        final(ledger).wf(),
        match accounts.outcome(old(ledger)@) {
            Ok(s) => r is Ok && final(ledger)@ == s,
            Err(e) => r == Err::<(), EscrowError>(e) && final(ledger)@ == old(ledger)@,
        },
        r is Ok ==> {
            &&& final(ledger)@.assets[accounts.asset].owner == accounts.payer
            &&& final(ledger)@.vaults == old(ledger)@.vaults
            &&& final(ledger)@.balances == moved(
                old(ledger)@.balances,
                accounts.payer,
                accounts.previous_owner,
                1_000_000_000,
            )
        },
{
    let signed = accounts.signers_can_sign();
    let vault_found = find_vault_address(&accounts.asset, &ledger.program);
    let protocol_found = find_protocol_address(&accounts.owner, &ledger.program);
    match accounts.check_addresses(signed, &vault_found, &protocol_found) {
        Ok(_) => accounts.swap_asset(ledger, flat_price()),
        Err(e) => Err(e),
    }
}

} // verus!
