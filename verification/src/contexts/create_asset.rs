use vstd::prelude::*;

use crate::address::Address;
use crate::collaborator::{accepts_asset, AssetRecord, Metadata, MetadataView};
use crate::constants::{is_asset_program, is_system_program, ASSET_PROGRAM, SYSTEM_PROGRAM};
use crate::derivation::{can_sign, can_sign_if_named, signs};
use crate::errors::EscrowError;
use crate::ledger::{Ledger, LedgerState};

verus! {

/// The accounts of the creation of an asset, which the collaborator carries
/// out. Naming an address as `payer`, `asset` or `authority` stands for its
/// signature.
#[derive(Clone, Copy, Debug, PartialEq, Eq)]
pub struct CreateAsset {
    /// The account paying for the creation.
    pub payer: Address,
    /// The address of the new asset.
    pub asset: Address,
    /// The collection to which the asset belongs, if any.
    pub collection: Option<Address>,
    /// The authority signing for the creation, where it is not the payer.
    pub authority: Option<Address>,
    /// The owner of the new asset. Where none is named, the authority owns
    /// it.
    pub owner: Option<Address>,
    /// The update authority of the new asset, handed on to the collaborator.
    pub update_authority: Option<Address>,
    /// The system program.
    pub system_program: Address,
    /// The log wrapper handed on to the collaborator, which is not checked
    /// here.
    pub log_wrapper: Option<Address>,
    /// The asset-management collaborator.
    pub mpl_core: Address,
}

/// How the new asset is described.
pub struct CreateAssetArgs {
    pub name: String,
    pub uri: String,
    pub plugins: Option<Vec<mpl_core::types::PluginAuthorityPair>>,
}

impl View for CreateAssetArgs {
    type V = MetadataView;

    open spec fn view(&self) -> MetadataView {
        MetadataView {
            name: self.name@,
            uri: self.uri@,
            plugins: match self.plugins {
                Some(plugins) => Some(plugins@),
                None => None,
            },
        }
    }
}

impl CreateAsset {
    /// Who owns the new asset: the named owner; where none is named, the
    /// named authority; where none is named either, the payer.
    pub open spec fn first_owner(&self) -> Address {
        match self.owner {
            Some(owner) => owner,
            None => match self.authority {
                Some(authority) => authority,
                None => self.payer,
            },
        }
    }

    /// Whether a signature can exist of each account that signs the
    /// creation: the payer, the new asset and, where one is named, the
    /// authority.
    pub open spec fn signed(&self) -> bool {
        &&& signs(self.payer)
        &&& signs(self.asset)
        &&& self.authority matches Some(authority) ==> signs(authority)
    }

    /// What the address checks of a creation give: success where the
    /// signers can sign and the two programs are the expected ones.
    pub open spec fn checked(&self, signed: bool) -> Result<(), EscrowError> {
        if signed && self.system_program@ == SYSTEM_PROGRAM@ && self.mpl_core@ == ASSET_PROGRAM@ {
            Ok(())
        } else {
            Err(EscrowError::DerivationMismatch)
        }
    }

    /// What the creation of an asset described by `args` does to the ledger
    /// `s`: where the collaborator accepts it, the asset exists, belongs to
    /// its first owner and to the named collection, and has no delegate.
    pub open spec fn created(&self, s: LedgerState, args: MetadataView) -> Result<
        LedgerState,
        EscrowError,
    > {
        if !accepts_asset(s.assets, s.collections, self.asset, self.collection) {
            Err(EscrowError::CollaboratorRejection)
        } else {
            Ok(
                LedgerState {
                    assets: s.assets.insert(
                        self.asset,
                        AssetRecord {
                            owner: self.first_owner(),
                            collection: self.collection,
                            delegate: None,
                        },
                    ),
                    metadata: s.metadata.insert(self.asset, args),
                    ..s
                },
            )
        }
    }

    /// What a creation does to the ledger `s`: the address checks, then the
    /// creation itself.
    pub open spec fn outcome(&self, s: LedgerState, args: MetadataView) -> Result<
        LedgerState,
        EscrowError,
    > {
        match self.checked(self.signed()) {
            Ok(_) => self.created(s, args),
            Err(e) => Err(e),
        }
    }

    /// Whether a signature can exist of each account that signs the
    /// creation.
    pub fn signers_can_sign(&self) -> (b: bool)
        ensures
            b == self.signed(),
    {
        can_sign(&self.payer) && can_sign(&self.asset) && can_sign_if_named(&self.authority)
    }

    /// Checks that the two programs are the expected ones. `signed` says
    /// whether the signers can sign.
    pub fn check_addresses(&self, signed: bool) -> (r: Result<(), EscrowError>)
        ensures
            r == self.checked(signed),
    {
        if signed && is_system_program(&self.system_program) && is_asset_program(&self.mpl_core) {
            Ok(())
        } else {
            Err(EscrowError::DerivationMismatch)
        }
    }

    /// Asks the collaborator to create the asset: all of `created`, or an
    /// error and no change.
    pub fn create_asset(&self, ledger: &mut Ledger, args: CreateAssetArgs) -> (r: Result<
        (),
        EscrowError,
    >)
        requires
            old(ledger).wf(),
        ensures
            final(ledger).wf(),
            match self.created(old(ledger)@, args@) {
                Ok(s) => r is Ok && final(ledger)@ == s,
                Err(e) => r == Err::<(), EscrowError>(e) && final(ledger)@ == old(ledger)@,
            },
    {
        let owner = match self.owner {
            Some(owner) => owner,
            None => match self.authority {
                Some(authority) => authority,
                None => self.payer,
            },
        };
        let metadata = Metadata { name: args.name, uri: args.uri, plugins: args.plugins };
        if ledger.registry.create_asset(self.asset, owner, self.collection, metadata) {
            Ok(())
        } else {
            Err(EscrowError::CollaboratorRejection)
        }
    }
}

} // verus!
