use vstd::prelude::*;

use crate::address::Address;
use crate::balances::{lemma_moved_back, moved};
use crate::collaborator::{accepts_transfer, transferred};
use crate::constants::{is_asset_program, is_system_program, ASSET_PROGRAM, SYSTEM_PROGRAM};
use crate::derivation::{
    can_sign, can_sign_if_named, protocol_address, salted_bytes, signs, vault_address,
};
use crate::errors::EscrowError;
use crate::ledger::{Ledger, LedgerState};
use crate::requests::{Payment, TransferRequest};
use crate::states::{Protocol, Vault};

verus! {

/// The accounts of a lock: what is escrowed, who pays, and where the fee
/// goes. Naming an address as `payer` or `authority` stands for its
/// signature.
#[derive(Clone, Copy, Debug, PartialEq, Eq)]
pub struct LockAsset {
    /// The asset to escrow.
    pub asset: Address,
    /// The collection to which the asset belongs, if any.
    pub collection: Option<Address>,
    /// The account that supplies the asset and pays the fee.
    pub payer: Address,
    /// The owner or delegate of the asset, where it is not the payer.
    pub authority: Option<Address>,
    /// The vault record of the asset, whose address becomes the owner of
    /// the asset.
    pub vault: Address,
    /// The protocol owner whose configuration sets the fee.
    pub owner: Address,
    /// The protocol configuration of `owner`.
    pub protocol: Address,
    /// The account that collects the fee.
    pub protocol_treasure: Address,
    /// The system program.
    pub system_program: Address,
    /// The log wrapper handed on to the collaborator, which is not checked
    /// here.
    pub log_wrapper: Option<Address>,
    /// The asset-management collaborator.
    pub mpl_core: Address,
}

impl LockAsset {
    /// The authority whose control of the asset the collaborator checks: the
    /// named authority, or the payer where none is named.
    pub open spec fn acting_authority(&self) -> Address {
        match self.authority {
            Some(authority) => authority,
            None => self.payer,
        }
    }

    /// The deposit that the payer owes for the storage of the vault record:
    /// nothing where the record exists already.
    pub open spec fn deposit_due(&self, s: LedgerState) -> nat {
        if s.vaults.dom().contains(self.vault) {
            0
        } else {
            s.record_deposit as nat
        }
    }

    /// Whether a signature can exist of each account that signs a lock: the
    /// payer and, where one is named, the authority.
    pub open spec fn signed(&self) -> bool {
        &&& signs(self.payer)
        &&& self.authority matches Some(authority) ==> signs(authority)
    }

    /// What the address checks of a lock give for the derived addresses
    /// found: the salt byte of the vault where the signers can sign and
    /// every supplied address is the expected one.
    pub open spec fn checked(
        &self,
        signed: bool,
        vault_found: Option<(Seq<u8>, u8)>,
        protocol_found: Option<(Seq<u8>, u8)>,
    ) -> Result<u8, EscrowError> {
        match (vault_found, protocol_found) {
            (Some((vault, bump)), Some((protocol, _))) => {
                if signed && vault == self.vault@ && protocol == self.protocol@ && self.system_program@
                    == SYSTEM_PROGRAM@ && self.mpl_core@ == ASSET_PROGRAM@ {
                    Ok(bump)
                } else {
                    Err(EscrowError::DerivationMismatch)
                }
            },
            _ => Err(EscrowError::DerivationMismatch),
        }
    }

    /// What a lock with the salt byte `vault_bump` does to the ledger `s`.
    ///
    /// The payer funds the vault record if it is new, then pays the fee of
    /// the protocol configuration to the treasury; the collaborator moves the
    /// asset to the address of the vault record; and the vault record names
    /// the payer as previous owner.
    pub open spec fn locked(&self, s: LedgerState, vault_bump: u8) -> Result<
        LedgerState,
        EscrowError,
    > {
        if !s.protocols.dom().contains(self.protocol) {
            Err(EscrowError::DerivationMismatch)
        } else if s.balances[self.payer] < self.deposit_due(s) {
            Err(EscrowError::InsufficientFunds)
        } else {
            let funded = moved(s.balances, self.payer, self.vault, self.deposit_due(s));
            let fee = s.protocols[self.protocol].rent_fee as nat;
            if funded[self.payer] < fee {
                Err(EscrowError::InsufficientFunds)
            } else if !accepts_transfer(
                s.assets,
                self.asset,
                self.collection,
                self.acting_authority(),
            ) {
                Err(EscrowError::CollaboratorRejection)
            } else {
                Ok(
                    LedgerState {
                        balances: moved(funded, self.payer, self.protocol_treasure, fee),
                        vaults: s.vaults.insert(
                            self.vault,
                            Vault { previous_owner: self.payer, bump: vault_bump },
                        ),
                        assets: transferred(s.assets, self.asset, self.vault),
                        ..s
                    },
                )
            }
        }
    }

    /// What a lock does to the ledger `s`: the address checks against the
    /// addresses derived under the program of `s`, then the lock itself with
    /// the salt byte found for the vault.
    pub open spec fn outcome(&self, s: LedgerState) -> Result<LedgerState, EscrowError> {
        match self.checked(
            self.signed(),
            vault_address(self.asset, s.program),
            protocol_address(self.owner, s.program),
        ) {
            Ok(bump) => self.locked(s, bump),
            Err(e) => Err(e),
        }
    }

    /// Whether a signature can exist of each account that signs a lock.
    pub fn signers_can_sign(&self) -> (b: bool)
        ensures
            b == self.signed(),
    {
        can_sign(&self.payer) && can_sign_if_named(&self.authority)
    }

    /// Checks the supplied addresses against the derived addresses found for
    /// the vault of the asset and for the configuration of the protocol
    /// owner, and gives the salt byte of the vault. `signed` says whether
    /// the signers can sign.
    pub fn check_addresses(
        &self,
        signed: bool,
        vault_found: &Option<(Address, u8)>,
        protocol_found: &Option<(Address, u8)>,
    ) -> (r: Result<u8, EscrowError>)
        ensures
            r == self.checked(signed, salted_bytes(*vault_found), salted_bytes(*protocol_found)),
    {
        match (vault_found, protocol_found) {
            (Some((vault, bump)), Some((protocol, _))) => {
                proof {
                    if vault@ == self.vault@ {
                        Address::lemma_view_decides(*vault, self.vault);
                    }
                    if protocol@ == self.protocol@ {
                        Address::lemma_view_decides(*protocol, self.protocol);
                    }
                }
                if signed && vault.same(&self.vault) && protocol.same(&self.protocol) && is_system_program(
                    &self.system_program,
                ) && is_asset_program(&self.mpl_core) {
                    Ok(*bump)
                } else {
                    Err(EscrowError::DerivationMismatch)
                }
            },
            _ => Err(EscrowError::DerivationMismatch),
        }
    }

    /// The vault record that a lock with the salt byte `vault_bump` writes:
    /// it names the payer as previous owner.
    pub fn vault_record(&self, vault_bump: u8) -> (record: Vault)
        ensures
            record == (Vault { previous_owner: self.payer, bump: vault_bump }),
    {
        Vault { previous_owner: self.payer, bump: vault_bump }
    }

    /// The payment with which the payer funds the storage of the vault
    /// record: `deposit` units to the address of the record.
    pub fn storage_payment(&self, deposit: u64) -> (payment: Payment)
        ensures
            payment == (Payment { from: self.payer, to: self.vault, lamports: deposit }),
    {
        Payment { from: self.payer, to: self.vault, lamports: deposit }
    }

    /// The payment of the fee: what the protocol configuration charges, from
    /// the payer to the treasury.
    pub fn fee_payment(&self, protocol: &Protocol) -> (payment: Payment)
        ensures
            payment == (Payment {
                from: self.payer,
                to: self.protocol_treasure,
                lamports: protocol.rent_fee,
            }),
    {
        Payment { from: self.payer, to: self.protocol_treasure, lamports: protocol.rent_fee }
    }

    /// The request that puts the asset into custody: the address of the
    /// vault record is to own it, on the signature of the payer or of the
    /// named authority.
    pub fn custody_request(&self) -> (request: TransferRequest)
        ensures
            request == (TransferRequest {
                asset: self.asset,
                collection: self.collection,
                payer: self.payer,
                authority: self.authority,
                new_owner: self.vault,
                system_program: Some(self.system_program),
                log_wrapper: self.log_wrapper,
                program: self.mpl_core,
                signer_seeds: None,
            }),
    {
        TransferRequest {
            asset: self.asset,
            collection: self.collection,
            payer: self.payer,
            authority: self.authority,
            new_owner: self.vault,
            system_program: Some(self.system_program),
            log_wrapper: self.log_wrapper,
            program: self.mpl_core,
            signer_seeds: None,
        }
    }

    /// Locks the asset with the salt byte `vault_bump`, on the signatures of
    /// the payer and of the named authority: all of `locked`, or an error
    /// and no change.
    pub fn lock_asset(&self, ledger: &mut Ledger, vault_bump: u8) -> (r: Result<(), EscrowError>)
        requires
            old(ledger).wf(),
        ensures
            final(ledger).wf(),
            match self.locked(old(ledger)@, vault_bump) {
                Ok(s) => r is Ok && final(ledger)@ == s,
                Err(e) => r == Err::<(), EscrowError>(e) && final(ledger)@ == old(ledger)@,
            },
    {
        let ghost before = ledger@;
        proof {
            ledger.lemma_state();
        }
        let protocol = match ledger.protocol(&self.protocol) {
            Some(protocol) => protocol,
            None => { return Err(EscrowError::DerivationMismatch); },
        };
        let deposit = if ledger.vault(&self.vault).is_some() {
            0
        } else {
            ledger.record_deposit()
        };
        let storage = self.storage_payment(deposit);
        if !ledger.pay(&storage) {
            return Err(EscrowError::InsufficientFunds);
        }
        let ghost funded = ledger@.balances;
        proof {
            lemma_moved_back(before.balances, self.payer, self.vault, deposit as nat);
        }
        let fee = self.fee_payment(&protocol);
        if !ledger.pay(&fee) {
            ledger.refund(&storage);
            return Err(EscrowError::InsufficientFunds);
        }
        let request = self.custody_request();
        if !ledger.carry_out(&request, &Some(request.acting())) {
            proof {
                ledger.lemma_state();
                lemma_moved_back(funded, self.payer, self.protocol_treasure, fee.lamports as nat);
            }
            ledger.refund(&fee);
            ledger.refund(&storage);
            return Err(EscrowError::CollaboratorRejection);
        }
        ledger.vaults.insert(self.vault, self.vault_record(vault_bump));
        Ok(())
    }
}

} // verus!
