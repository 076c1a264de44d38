use vstd::prelude::*;

use crate::address::Address;
use crate::balances::moved;
use crate::collaborator::MetadataView;
use crate::constants::UNITS_PER_COIN;
use crate::contexts::{CreateAsset, CreateCollection, InitializeProtocol, LockAsset, SwapAsset};
use crate::derivation::{
    derived_address, is_curve_point, lemma_found_is_derived, protocol_seeds, salted, signs,
    vault_seeds,
};
use crate::errors::EscrowError;
use crate::ledger::LedgerState;
use crate::states::Vault;

verus! {

/// A protocol is initialized once. After an initialization the
/// configuration holds the fee as it was submitted, and its address is the
/// one that the protocol seeds of the payer derive with the salt byte that
/// it stores. Every further initialization by the same payer fails: with an
/// allocation conflict where it passes the address checks, whatever fee it
/// submits.
pub proof fn law_initialize_once(
    first: InitializeProtocol,
    second: InitializeProtocol,
    s: LedgerState,
    rent_fee: u64,
    other_fee: u64,
)
    requires
        first.outcome(s, rent_fee) is Ok,
        second.payer == first.payer,
    ensures
        ({
            let after = first.outcome(s, rent_fee).unwrap();
            &&& after.protocols.dom().contains(first.protocol)
            &&& after.protocols[first.protocol].rent_fee == rent_fee
            &&& derived_address(
                salted(protocol_seeds(first.payer), after.protocols[first.protocol].bump),
                after.program@,
            ) == Some(first.protocol@)
            &&& second.outcome(after, other_fee) is Err
            &&& second.checked(
                second.signed(),
                crate::derivation::protocol_address(second.payer, after.program),
            ) is Ok ==> second.outcome(after, other_fee) == Err::<LedgerState, EscrowError>(
                EscrowError::AllocationConflict,
            )
        }),
{
    lemma_found_is_derived(protocol_seeds(first.payer), s.program@);
    if second.protocol@ == first.protocol@ {
        Address::lemma_view_decides(second.protocol, first.protocol);
    }
}

/// A lock whose payer holds less than the fee fails for want of funds. By
/// the contract of the lock the ledger is then as before, and with it the
/// ownership of the asset and the vault record.
pub proof fn law_lock_needs_the_fee(accounts: LockAsset, s: LedgerState, bump: u8)
    requires
        s.protocols.dom().contains(accounts.protocol),
        s.balances[accounts.payer] < s.protocols[accounts.protocol].rent_fee,
    ensures
        accounts.locked(s, bump) == Err::<LedgerState, EscrowError>(
            EscrowError::InsufficientFunds,
        ),
{
}

/// After a lock the vault record names the payer as previous owner and
/// holds the salt byte of the lock, and its address owns the asset, with no
/// delegate. The fee of the protocol has reached the treasury, the protocol
/// configurations are as before, and so is what is in circulation.
pub proof fn law_lock_takes_custody(accounts: LockAsset, s: LedgerState, bump: u8)
    requires
        s.wf(),
        accounts.locked(s, bump) is Ok,
    ensures
        ({
            let after = accounts.locked(s, bump).unwrap();
            &&& after.vaults.dom().contains(accounts.vault)
            &&& after.vaults[accounts.vault] == (Vault {
                previous_owner: accounts.payer,
                bump,
            })
            &&& after.assets.dom().contains(accounts.asset)
            &&& after.assets[accounts.asset].owner == accounts.vault
            &&& after.assets[accounts.asset].delegate is None
            &&& after.supply == s.supply
            &&& after.protocols == s.protocols
            &&& accounts.payer != accounts.protocol_treasure && accounts.vault
                != accounts.protocol_treasure ==> after.balances[accounts.protocol_treasure]
                == s.balances[accounts.protocol_treasure]
                + s.protocols[accounts.protocol].rent_fee
        }),
{
}

/// After a lock that has passed the address checks the asset is in escrow:
/// the collaborator names as its owner the address of the vault record,
/// which is the keyless authority that the vault seeds of the asset derive
/// with the salt byte stored in the record; and the record names the payer
/// as previous owner.
pub proof fn law_lock_escrows(accounts: LockAsset, s: LedgerState)
    requires
        accounts.outcome(s) is Ok,
    ensures
        accounts.outcome(s).unwrap().escrows(accounts.asset, accounts.vault),
        accounts.outcome(s).unwrap().vaults[accounts.vault].previous_owner == accounts.payer,
{
    lemma_found_is_derived(vault_seeds(accounts.asset), s.program@);
}

/// A swap of an escrowed asset releases it. Where the asset is in escrow
/// under the vault record, the supplied previous owner is the one that the
/// record names, the supplied collection is the one of the asset, the
/// protocol configuration exists and the payer holds the price, the swap
/// succeeds: exactly the price moves from the payer to the previous owner,
/// the payer owns the asset, and the vault record is as before.
pub proof fn law_swap_releases(accounts: SwapAsset, s: LedgerState, price: u64)
    requires
        s.wf(),
        s.escrows(accounts.asset, accounts.vault),
        s.vaults[accounts.vault].previous_owner == accounts.previous_owner,
        s.assets[accounts.asset].collection == accounts.collection,
        s.protocols.dom().contains(accounts.protocol),
        s.balances[accounts.payer] >= price,
    ensures
        accounts.swapped(s, price) is Ok,
        ({
            let after = accounts.swapped(s, price).unwrap();
            &&& after.balances == moved(
                s.balances,
                accounts.payer,
                accounts.previous_owner,
                price as nat,
            )
            &&& accounts.payer != accounts.previous_owner ==> {
                &&& after.balances[accounts.payer] == s.balances[accounts.payer] - price
                &&& after.balances[accounts.previous_owner] == s.balances[accounts.previous_owner]
                    + price
            }
            &&& forall|a: Address|
                a != accounts.payer && a != accounts.previous_owner ==> after.balances[a]
                    == s.balances[a]
            &&& after.assets[accounts.asset].owner == accounts.payer
            &&& after.vaults == s.vaults
            &&& after.supply == s.supply
        }),
{
}

/// A swap that has passed the address checks is a swap at the flat price of
/// one whole coin.
pub proof fn law_swap_price_is_flat(accounts: SwapAsset, s: LedgerState)
    requires
        accounts.outcome(s) is Ok,
    ensures
        accounts.outcome(s) == accounts.swapped(s, UNITS_PER_COIN),
        accounts.outcome(s).unwrap().balances == moved(
            s.balances,
            accounts.payer,
            accounts.previous_owner,
            1_000_000_000,
        ),
{
}

/// A swap fails with a mismatch where the supplied previous owner is not
/// the one that the vault record names.
pub proof fn law_swap_checks_previous_owner(accounts: SwapAsset, s: LedgerState, price: u64)
    requires
        s.vaults.dom().contains(accounts.vault),
        s.vaults[accounts.vault].previous_owner != accounts.previous_owner,
    ensures
        accounts.swapped(s, price) == Err::<LedgerState, EscrowError>(
            EscrowError::DerivationMismatch,
        ),
        accounts.outcome(s) == Err::<LedgerState, EscrowError>(EscrowError::DerivationMismatch),
{
}

/// After a swap the asset is out of escrow, though the vault record still
/// stands: a further swap under the same record, by a payer who holds the
/// price, is refused by the collaborator and not by the record.
pub proof fn law_swap_once(first: SwapAsset, second: SwapAsset, s: LedgerState, price: u64)
    requires
        first.swapped(s, price) is Ok,
        first.payer != first.vault,
        second.asset == first.asset,
        second.vault == first.vault,
        second.previous_owner == first.previous_owner,
        second.protocol == first.protocol,
        first.swapped(s, price).unwrap().balances[second.payer] >= price,
    ensures
        !first.swapped(s, price).unwrap().escrows(first.asset, first.vault),
        second.swapped(first.swapped(s, price).unwrap(), price) == Err::<LedgerState, EscrowError>(
            EscrowError::CollaboratorRejection,
        ),
{
}

/// A lock overwrites a stale vault record. After a swap has released the
/// asset to its payer, a lock by that payer under the same vault record
/// succeeds where the protocol configuration exists and the payer holds the
/// fee; the record then names the payer as previous owner, whoever it named
/// before, and the asset is back in the custody of the record's address.
pub proof fn law_relock_overwrites(
    swap: SwapAsset,
    lock: LockAsset,
    s: LedgerState,
    price: u64,
    bump: u8,
)
    requires
        s.wf(),
        swap.swapped(s, price) is Ok,
        lock.asset == swap.asset,
        lock.vault == swap.vault,
        lock.collection == swap.collection,
        lock.payer == swap.payer,
        lock.authority is None,
        swap.swapped(s, price).unwrap().protocols.dom().contains(lock.protocol),
        swap.swapped(s, price).unwrap().balances[lock.payer] >= swap.swapped(
            s,
            price,
        ).unwrap().protocols[lock.protocol].rent_fee,
    ensures
        lock.locked(swap.swapped(s, price).unwrap(), bump) is Ok,
        ({
            let after = lock.locked(swap.swapped(s, price).unwrap(), bump).unwrap();
            &&& after.vaults[lock.vault] == (Vault { previous_owner: lock.payer, bump })
            &&& after.assets[lock.asset].owner == lock.vault
        }),
{
    let released = swap.swapped(s, price).unwrap();
    assert(released.vaults.dom().contains(lock.vault));
    assert(lock.deposit_due(released) == 0);
    assert(moved(released.balances, lock.payer, lock.vault, 0) =~= released.balances);
}

/// Custody is exclusive. An asset in escrow yields to no signature: every
/// lock of it fails, whoever signs, since its owner is an address of which
/// no signature can exist.
pub proof fn law_custody_is_exclusive(lock: LockAsset, s: LedgerState, vault: Address)
    requires
        s.escrows(lock.asset, vault),
    ensures
        lock.outcome(s) is Err,
{
    if signs(lock.acting_authority()) && lock.acting_authority() == vault {
        assert(is_curve_point(vault@));
    }
}

/// Only a swap of the asset ends its escrow. An asset in escrow stays in
/// escrow, under the same vault record, through every initialization,
/// creation and lock, and through every swap of another asset, as long as
/// the vault records of different assets live at different addresses.
pub proof fn law_escrow_ends_by_swap_only(
    s: LedgerState,
    asset: Address,
    vault: Address,
    initialize: InitializeProtocol,
    collection: CreateCollection,
    creation: CreateAsset,
    lock: LockAsset,
    swap: SwapAsset,
    rent_fee: u64,
    args: MetadataView,
)
    requires
        s.escrows(asset, vault),
        lock.asset != asset ==> lock.vault != vault,
        swap.asset != asset,
    ensures
        initialize.outcome(s, rent_fee) matches Ok(after) ==> after.escrows(asset, vault),
        collection.outcome(s, args) matches Ok(after) ==> after.escrows(asset, vault),
        creation.outcome(s, args) matches Ok(after) ==> after.escrows(asset, vault),
        lock.outcome(s) matches Ok(after) ==> after.escrows(asset, vault),
        swap.outcome(s) matches Ok(after) ==> after.escrows(asset, vault),
{
    if lock.asset == asset {
        law_custody_is_exclusive(lock, s, vault);
    }
}

/// What is held at a keyless address stays there. No operation lowers the
/// balance of an address of which no signature can exist, such as the
/// address of a record.
pub proof fn law_keyless_funds_stay(
    s: LedgerState,
    keyless: Address,
    initialize: InitializeProtocol,
    lock: LockAsset,
    swap: SwapAsset,
    rent_fee: u64,
)
    requires
        s.wf(),
        !signs(keyless),
    ensures
        initialize.outcome(s, rent_fee) matches Ok(after) ==> after.balances[keyless]
            >= s.balances[keyless],
        lock.outcome(s) matches Ok(after) ==> after.balances[keyless] >= s.balances[keyless],
        swap.outcome(s) matches Ok(after) ==> after.balances[keyless] >= s.balances[keyless],
{
}

/// Every operation keeps the state well formed and the program, the storage
/// deposit and the units in circulation as they are. A protocol
/// configuration, once written, is changed by no operation.
pub proof fn law_operations_preserve(
    s: LedgerState,
    initialize: InitializeProtocol,
    collection: CreateCollection,
    asset: CreateAsset,
    lock: LockAsset,
    swap: SwapAsset,
    rent_fee: u64,
    bump: u8,
    price: u64,
    args: MetadataView,
)
    requires
        s.wf(),
    ensures
        initialize.initialized(s, rent_fee, bump) matches Ok(after) ==> preserved(s, after),
        collection.created(s, args) matches Ok(after) ==> preserved(s, after),
        asset.created(s, args) matches Ok(after) ==> preserved(s, after),
        lock.locked(s, bump) matches Ok(after) ==> preserved(s, after),
        swap.swapped(s, price) matches Ok(after) ==> preserved(s, after),
{
}

/// What every operation preserves from the state `s` to the state `after`.
pub open spec fn preserved(s: LedgerState, after: LedgerState) -> bool {
    &&& after.wf()
    &&& after.program == s.program
    &&& after.record_deposit == s.record_deposit
    &&& after.supply == s.supply
    &&& forall|a: Address|
        s.protocols.dom().contains(a) ==> after.protocols.dom().contains(a)
            && after.protocols[a] == s.protocols[a]
    &&& forall|a: Address| s.vaults.dom().contains(a) ==> after.vaults.dom().contains(a)
    &&& forall|a: Address| s.assets.dom().contains(a) ==> after.assets.dom().contains(a)
}

} // verus!
