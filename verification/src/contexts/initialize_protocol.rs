use vstd::prelude::*;

use crate::address::Address;
use crate::balances::moved;
use crate::constants::{is_system_program, SYSTEM_PROGRAM};
use crate::derivation::{can_sign, protocol_address, salted_bytes, signs};
use crate::errors::EscrowError;
use crate::ledger::{Ledger, LedgerState};
use crate::states::Protocol;

verus! {

/// The accounts of the initialization of a protocol. The payer becomes the
/// protocol owner. Naming an address as `payer` stands for its signature.
#[derive(Clone, Copy, Debug, PartialEq, Eq)]
pub struct InitializeProtocol {
    /// The account that owns the protocol and funds the storage of its
    /// configuration.
    pub payer: Address,
    /// The account that will collect the fees.
    pub protocol_treasure: Address,
    /// The protocol configuration to create.
    pub protocol: Address,
    /// The system program.
    pub system_program: Address,
}

impl InitializeProtocol {
    /// Whether a signature can exist of the account that signs an
    /// initialization: the payer.
    pub open spec fn signed(&self) -> bool {
        signs(self.payer)
    }

    /// What the address checks of an initialization give for the derived
    /// address found: its salt byte where the payer can sign and every
    /// supplied address is the expected one.
    pub open spec fn checked(&self, signed: bool, protocol_found: Option<(Seq<u8>, u8)>) -> Result<
        u8,
        EscrowError,
    > {
        match protocol_found {
            Some((protocol, bump)) => {
                if signed && protocol == self.protocol@ && self.system_program@ == SYSTEM_PROGRAM@ {
                    Ok(bump)
                } else {
                    Err(EscrowError::DerivationMismatch)
                }
            },
            None => Err(EscrowError::DerivationMismatch),
        }
    }

    /// What an initialization with the fee `rent_fee` and the salt byte
    /// `bump` does to the ledger `s`: where no configuration exists at the
    /// address, the payer funds its storage and the configuration is
    /// written.
    pub open spec fn initialized(&self, s: LedgerState, rent_fee: u64, bump: u8) -> Result<
        LedgerState,
        EscrowError,
    > {
        if s.protocols.dom().contains(self.protocol) {
            Err(EscrowError::AllocationConflict)
        } else if s.balances[self.payer] < s.record_deposit {
            Err(EscrowError::InsufficientFunds)
        } else {
            Ok(
                LedgerState {
                    balances: moved(
                        s.balances,
                        self.payer,
                        self.protocol,
                        s.record_deposit as nat,
                    ),
                    protocols: s.protocols.insert(self.protocol, Protocol { rent_fee, bump }),
                    ..s
                },
            )
        }
    }

    /// What an initialization does to the ledger `s`: the address checks
    /// against the address derived for the payer under the program of `s`,
    /// then the initialization itself with the salt byte found.
    pub open spec fn outcome(&self, s: LedgerState, rent_fee: u64) -> Result<
        LedgerState,
        EscrowError,
    > {
        match self.checked(self.signed(), protocol_address(self.payer, s.program)) {
            Ok(bump) => self.initialized(s, rent_fee, bump),
            Err(e) => Err(e),
        }
    }

    /// Whether a signature can exist of the payer.
    pub fn signers_can_sign(&self) -> (b: bool)
        ensures
            b == self.signed(),
    {
        can_sign(&self.payer)
    }

    /// Checks the supplied addresses against the derived address found for
    /// the configuration of the payer, and gives its salt byte. `signed`
    /// says whether the payer can sign.
    pub fn check_addresses(&self, signed: bool, protocol_found: &Option<(Address, u8)>) -> (r:
        Result<u8, EscrowError>)
        ensures
            r == self.checked(signed, salted_bytes(*protocol_found)),
    {
        match protocol_found {
            Some((protocol, bump)) => {
                proof {
                    if protocol@ == self.protocol@ {
                        Address::lemma_view_decides(*protocol, self.protocol);
                    }
                }
                if signed && protocol.same(&self.protocol) && is_system_program(
                    &self.system_program,
                ) {
                    Ok(*bump)
                } else {
                    Err(EscrowError::DerivationMismatch)
                }
            },
            None => Err(EscrowError::DerivationMismatch),
        }
    }

    /// Creates the protocol configuration with the fee `rent_fee` and the
    /// salt byte `bump`: all of `initialized`, or an error and no change.
    pub fn initialize_protocol(&self, ledger: &mut Ledger, rent_fee: u64, bump: u8) -> (r: Result<
        (),
        EscrowError,
    >)
        requires
            old(ledger).wf(),
        ensures
            final(ledger).wf(),
            match self.initialized(old(ledger)@, rent_fee, bump) {
                Ok(s) => r is Ok && final(ledger)@ == s,
                Err(e) => r == Err::<(), EscrowError>(e) && final(ledger)@ == old(ledger)@,
            },
    {
        if ledger.protocols.contains(&self.protocol) {
            return Err(EscrowError::AllocationConflict);
        }
        let deposit = ledger.record_deposit;
        if !ledger.balances.transfer(&self.payer, &self.protocol, deposit) {
            return Err(EscrowError::InsufficientFunds);
        }
        ledger.protocols.insert(self.protocol, Protocol { rent_fee, bump });
        Ok(())
    }
}

} // verus!
