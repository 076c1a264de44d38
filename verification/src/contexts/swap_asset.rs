use vstd::prelude::*;

use crate::address::Address;
use crate::balances::{lemma_moved_back, moved};
use crate::collaborator::{accepts_transfer, transferred};
use crate::constants::{
    is_asset_program, is_system_program, ASSET_PROGRAM, SYSTEM_PROGRAM, UNITS_PER_COIN,
};
use crate::derivation::{
    address_bytes, can_sign, can_sign_if_named, derive_vault_authority, protocol_address,
    salted_bytes, signs, vault_address, vault_authority,
};
use crate::errors::EscrowError;
use crate::ledger::{Ledger, LedgerState};
use crate::requests::{Payment, TransferRequest, VaultSeeds};
use crate::states::Vault;

verus! {

/// The accounts of a swap: what is released, who buys it, and who is paid.
/// Naming an address as `payer` stands for its signature; the previous owner
/// does not sign.
#[derive(Clone, Copy, Debug, PartialEq, Eq)]
pub struct SwapAsset {
    /// The escrowed asset.
    pub asset: Address,
    /// The collection to which the asset belongs, if any.
    pub collection: Option<Address>,
    /// The account that buys the asset.
    pub payer: Address,
    /// An owner or delegate of the asset. A swap does not consult it: the
    /// vault is the authority.
    pub authority: Option<Address>,
    /// The vault record of the asset, whose address owns the asset.
    pub vault: Address,
    /// The account that the vault record names as previous owner.
    pub previous_owner: Address,
    /// The protocol owner.
    pub owner: Address,
    /// The protocol configuration of `owner`.
    pub protocol: Address,
    /// The system program.
    pub system_program: Address,
    /// The log wrapper handed on to the collaborator, which is not checked
    /// here.
    pub log_wrapper: Option<Address>,
    /// The asset-management collaborator.
    pub mpl_core: Address,
}

impl SwapAsset {
    /// Whether a signature can exist of each account that signs a swap: the
    /// payer and, where one is named, the authority.
    pub open spec fn signed(&self) -> bool {
        &&& signs(self.payer)
        &&& self.authority matches Some(authority) ==> signs(authority)
    }

    /// What the address checks of a swap give for the derived addresses
    /// found: success where the signers can sign and every supplied address
    /// is the expected one.
    pub open spec fn checked(
        &self,
        signed: bool,
        vault_found: Option<(Seq<u8>, u8)>,
        protocol_found: Option<(Seq<u8>, u8)>,
    ) -> Result<(), EscrowError> {
        match (vault_found, protocol_found) {
            (Some((vault, _)), Some((protocol, _))) => {
                if signed && vault == self.vault@ && protocol == self.protocol@ && self.system_program@
                    == SYSTEM_PROGRAM@ && self.mpl_core@ == ASSET_PROGRAM@ {
                    Ok(())
                } else {
                    Err(EscrowError::DerivationMismatch)
                }
            },
            _ => Err(EscrowError::DerivationMismatch),
        }
    }

    /// What a swap at `price` does to the ledger `s`, where the derivation
    /// proof of the program shows control of the address `signer`.
    ///
    /// The vault record must name the supplied previous owner. The payer
    /// pays the price to the previous owner. The collaborator then moves the
    /// asset to the payer, if the proof shows control of the vault's address
    /// and that address controls the asset. The vault record stays as it is.
    pub open spec fn settled(&self, s: LedgerState, price: u64, signer: Option<Seq<u8>>) -> Result<
        LedgerState,
        EscrowError,
    > {
        if !s.vaults.dom().contains(self.vault) {
            Err(EscrowError::DerivationMismatch)
        } else if s.vaults[self.vault].previous_owner != self.previous_owner {
            Err(EscrowError::DerivationMismatch)
        } else if !s.protocols.dom().contains(self.protocol) {
            Err(EscrowError::DerivationMismatch)
        } else if s.balances[self.payer] < price {
            Err(EscrowError::InsufficientFunds)
        } else if signer != Some(self.vault@) {
            Err(EscrowError::CollaboratorRejection)
        } else if !accepts_transfer(s.assets, self.asset, self.collection, self.vault) {
            Err(EscrowError::CollaboratorRejection)
        } else {
            Ok(
                LedgerState {
                    balances: moved(s.balances, self.payer, self.previous_owner, price as nat),
                    assets: transferred(s.assets, self.asset, self.payer),
                    ..s
                },
            )
        }
    }

    /// What a swap at `price` does to the ledger `s`: the settlement under
    /// the authority that the vault seeds of the asset derive with the salt
    /// byte stored in the vault record.
    pub open spec fn swapped(&self, s: LedgerState, price: u64) -> Result<LedgerState, EscrowError> {
        if !s.vaults.dom().contains(self.vault) {
            Err(EscrowError::DerivationMismatch)
        } else {
            self.settled(s, price, vault_authority(self.asset, s.vaults[self.vault].bump, s.program))
        }
    }

    /// What a swap does to the ledger `s`: the address checks against the
    /// addresses derived under the program of `s`, then the swap itself at
    /// the flat price of one whole coin.
    pub open spec fn outcome(&self, s: LedgerState) -> Result<LedgerState, EscrowError> {
        match self.checked(
            self.signed(),
            vault_address(self.asset, s.program),
            protocol_address(self.owner, s.program),
        ) {
            Ok(_) => self.swapped(s, UNITS_PER_COIN),
            Err(e) => Err(e),
        }
    }

    /// Whether a signature can exist of each account that signs a swap.
    pub fn signers_can_sign(&self) -> (b: bool)
        ensures
            b == self.signed(),
    {
        can_sign(&self.payer) && can_sign_if_named(&self.authority)
    }

    /// Checks the supplied addresses against the derived addresses found for
    /// the vault of the asset and for the configuration of the protocol
    /// owner. `signed` says whether the signers can sign.
    pub fn check_addresses(
        &self,
        signed: bool,
        vault_found: &Option<(Address, u8)>,
        protocol_found: &Option<(Address, u8)>,
    ) -> (r: Result<(), EscrowError>)
        ensures
            r == self.checked(signed, salted_bytes(*vault_found), salted_bytes(*protocol_found)),
    {
        match (vault_found, protocol_found) {
            (Some((vault, _)), Some((protocol, _))) => {
                proof {
                    if vault@ == self.vault@ {
                        Address::lemma_view_decides(*vault, self.vault);
                    }
                    if protocol@ == self.protocol@ {
                        Address::lemma_view_decides(*protocol, self.protocol);
                    }
                }
                if signed && vault.same(&self.vault) && protocol.same(&self.protocol) && is_system_program(
                    &self.system_program,
                ) && is_asset_program(&self.mpl_core) {
                    Ok(())
                } else {
                    Err(EscrowError::DerivationMismatch)
                }
            },
            _ => Err(EscrowError::DerivationMismatch),
        }
    }

    /// The payment of the price, from the payer to the previous owner.
    pub fn price_payment(&self, price: u64) -> (payment: Payment)
        ensures
            payment == (Payment { from: self.payer, to: self.previous_owner, lamports: price }),
    {
        Payment { from: self.payer, to: self.previous_owner, lamports: price }
    }

    /// The request that releases the asset: the payer is to own it, on the
    /// authority of the vault's address, which the program proves to control
    /// with the vault seeds of the asset and the salt byte of the vault
    /// record.
    pub fn release_request(&self, vault: &Vault) -> (request: TransferRequest)
        ensures
            request == (TransferRequest {
                asset: self.asset,
                collection: self.collection,
                payer: self.payer,
                authority: Some(self.vault),
                new_owner: self.payer,
                system_program: Some(self.system_program),
                log_wrapper: self.log_wrapper,
                program: self.mpl_core,
                signer_seeds: Some(VaultSeeds { asset: self.asset, bump: vault.bump }),
            }),
    {
        TransferRequest {
            asset: self.asset,
            collection: self.collection,
            payer: self.payer,
            authority: Some(self.vault),
            new_owner: self.payer,
            system_program: Some(self.system_program),
            log_wrapper: self.log_wrapper,
            program: self.mpl_core,
            signer_seeds: Some(VaultSeeds { asset: self.asset, bump: vault.bump }),
        }
    }

    /// Settles the swap at `price`, where the derivation proof of the program
    /// shows control of `signer`: all of `settled`, or an error and no
    /// change.
    pub fn settle(&self, ledger: &mut Ledger, price: u64, signer: &Option<Address>) -> (r: Result<
        (),
        EscrowError,
    >)
        requires
            old(ledger).wf(),
        ensures
            final(ledger).wf(),
            match self.settled(old(ledger)@, price, address_bytes(*signer)) {
                Ok(s) => r is Ok && final(ledger)@ == s,
                Err(e) => r == Err::<(), EscrowError>(e) && final(ledger)@ == old(ledger)@,
            },
    {
        let ghost before = ledger@;
        proof {
            ledger.lemma_state();
        }
        let vault = match ledger.vault(&self.vault) {
            Some(vault) => vault,
            None => { return Err(EscrowError::DerivationMismatch); },
        };
        if !vault.previous_owner.same(&self.previous_owner) {
            return Err(EscrowError::DerivationMismatch);
        }
        if ledger.protocol(&self.protocol).is_none() {
            return Err(EscrowError::DerivationMismatch);
        }
        let payment = self.price_payment(price);
        if !ledger.pay(&payment) {
            return Err(EscrowError::InsufficientFunds);
        }
        if !ledger.carry_out(&self.release_request(&vault), signer) {
            proof {
                lemma_moved_back(before.balances, self.payer, self.previous_owner, price as nat);
            }
            ledger.refund(&payment);
            return Err(EscrowError::CollaboratorRejection);
        }
        Ok(())
    }

    /// Swaps the asset at `price`: derives the authority of the vault from
    /// the salt byte of the vault record, and settles under it. All of
    /// `swapped`, or an error and no change.
    pub fn swap_asset(&self, ledger: &mut Ledger, price: u64) -> (r: Result<(), EscrowError>)
        requires
            old(ledger).wf(),
        ensures
            final(ledger).wf(),
            match self.swapped(old(ledger)@, price) {
                Ok(s) => r is Ok && final(ledger)@ == s,
                Err(e) => r == Err::<(), EscrowError>(e) && final(ledger)@ == old(ledger)@,
            },
    {
        let vault = match ledger.vault(&self.vault) {
            Some(vault) => vault,
            None => { return Err(EscrowError::DerivationMismatch); },
        };
        let signer = derive_vault_authority(&self.asset, vault.bump, &ledger.program());
        self.settle(ledger, price, &signer)
    }
}

} // verus!
