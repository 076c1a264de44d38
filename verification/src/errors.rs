use vstd::prelude::*;

verus! {

/// Why an operation was refused. A refused operation changes nothing.
#[derive(Clone, Copy, Debug, PartialEq, Eq)]
pub enum EscrowError {
    /// The payer cannot cover a storage deposit, a fee or a price.
    InsufficientFunds,
    /// A protocol configuration already exists at the address.
    AllocationConflict,
    /// A supplied address is not the one that the operation expects: it is
    /// not derived as it should be, holds no record of the expected kind,
    /// differs from the address that a record names, or is named as a signer
    /// though no signature of it can exist.
    DerivationMismatch,
    /// The asset-management collaborator refused the request.
    CollaboratorRejection,
}

} // verus!
