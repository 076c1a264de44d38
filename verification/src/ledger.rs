use vstd::prelude::*;

use crate::address::{is_address, Address};
use crate::balances::{moved, Balances};
use crate::collaborator::{
    accepts_transfer, transferred, AssetRecord, AssetRegistry, Metadata, MetadataView,
};
use crate::derivation::{
    address_bytes, can_sign, derive_vault_authority, signs, vault_authority,
};
use crate::requests::{Payment, TransferRequest};
use crate::states::{Protocol, Vault};
use crate::table::Table;

verus! {

/// Everything that the operations read and change: the native currency, the
/// records of this program, and the books of the asset-management
/// collaborator.
pub struct Ledger {
    pub(crate) program: Address,
    pub(crate) record_deposit: u64,
    pub(crate) balances: Balances,
    pub(crate) protocols: Table<Protocol>,
    pub(crate) vaults: Table<Vault>,
    pub(crate) registry: AssetRegistry,
}

/// The ledger as mathematical values.
pub struct LedgerState {
    /// The address of this program, under which record addresses and vault
    /// authorities are derived.
    pub program: Address,
    /// The units that fund the storage of one new record.
    pub record_deposit: u64,
    /// The units of native currency held at each address.
    pub balances: Map<Address, nat>,
    /// The units of native currency in circulation.
    pub supply: nat,
    /// The protocol configurations, by the address of each.
    pub protocols: Map<Address, Protocol>,
    /// The vault records, by the address of each.
    pub vaults: Map<Address, Vault>,
    /// The collaborator's control record of each asset.
    pub assets: Map<Address, AssetRecord>,
    /// The update authority of each of the collaborator's collections.
    pub collections: Map<Address, Address>,
    /// The description of each asset and collection.
    pub metadata: Map<Address, MetadataView>,
}

impl LedgerState {
    /// Every address has a balance, no address is both an asset and a
    /// collection, and exactly the assets and the collections are described.
    pub open spec fn wf(self) -> bool {
        &&& forall|a: Address| self.balances.dom().contains(a)
        &&& forall|a: Address|
            !(self.assets.dom().contains(a) && self.collections.dom().contains(a))
        &&& forall|a: Address|
            self.metadata.dom().contains(a) <==> (self.assets.dom().contains(a)
                || self.collections.dom().contains(a))
    }

    /// Whether the collaborator carries out `request`, where the request
    /// proves control of `controller`: that is its acting authority, and the
    /// collaborator accepts the transfer on behalf of that authority.
    pub open spec fn accepts(self, request: TransferRequest, controller: Option<Seq<u8>>) -> bool {
        &&& request.proves_control(controller)
        &&& accepts_transfer(
            self.assets,
            request.asset,
            request.collection,
            request.acting_authority(),
        )
    }

    /// Whether `asset` is in escrow under the vault record at `vault`: the
    /// record exists, its salt byte derives its own address as the keyless
    /// authority of the asset, and the collaborator names that address as
    /// the owner of the asset and nobody as its delegate.
    pub open spec fn escrows(self, asset: Address, vault: Address) -> bool {
        &&& self.vaults.dom().contains(vault)
        &&& vault_authority(asset, self.vaults[vault].bump, self.program) == Some(vault@)
        &&& self.assets.dom().contains(asset)
        &&& self.assets[asset].owner == vault
        &&& self.assets[asset].delegate is None
    }
}

impl View for Ledger {
    type V = LedgerState;

    open(crate) spec fn view(&self) -> LedgerState {
        LedgerState {
            program: self.program,
            record_deposit: self.record_deposit,
            balances: self.balances@,
            supply: self.balances.circulating(),
            protocols: self.protocols@,
            vaults: self.vaults@,
            assets: self.registry.assets(),
            collections: self.registry.collections(),
            metadata: self.registry.metadata(),
        }
    }
}

impl Ledger {
    /// Each part of the ledger is well formed.
    pub open(crate) spec fn wf(&self) -> bool {
        &&& self.balances.wf()
        &&& self.protocols.wf()
        &&& self.vaults.wf()
        &&& self.registry.wf()
    }

    /// The state of a well-formed ledger is well formed, and no address
    /// holds more than what is in circulation, which fits in a `u64`.
    pub proof fn lemma_state(&self)
        requires
            self.wf(),
        ensures
            self@.wf(),
            self@.supply <= u64::MAX,
            forall|a: Address| #[trigger] self@.balances[a] <= self@.supply,
    {
        self.registry.lemma_kinds();
        assert forall|a: Address| #[trigger] self@.balances[a] <= self@.supply by {
            self.balances.lemma_balance_bounded(a);
        }
        self.balances.lemma_balance_bounded(self.program);
    }

    /// An empty ledger for the program at `program`, on which the storage of
    /// a new record is funded with `record_deposit` units.
    pub fn new(program: Address, record_deposit: u64) -> (ledger: Ledger)
        ensures
            ledger.wf(),
            ledger@.program == program,
            ledger@.record_deposit == record_deposit,
            forall|a: Address| ledger@.balances[a] == 0,
            ledger@.supply == 0,
            ledger@.protocols == Map::<Address, Protocol>::empty(),
            ledger@.vaults == Map::<Address, Vault>::empty(),
            ledger@.assets == Map::<Address, AssetRecord>::empty(),
            ledger@.collections == Map::<Address, Address>::empty(),
            ledger@.metadata == Map::<Address, MetadataView>::empty(),
    {
        Ledger {
            program,
            record_deposit,
            balances: Balances::new(),
            protocols: Table::new(),
            vaults: Table::new(),
            registry: AssetRegistry::new(),
        }
    }

    /// The address of this program.
    pub fn program(&self) -> (program: Address)
        ensures
            program == self@.program,
    {
        self.program
    }

    /// The units that fund the storage of one new record.
    pub fn record_deposit(&self) -> (units: u64)
        ensures
            units == self@.record_deposit,
    {
        self.record_deposit
    }

    /// The units of native currency held at `address`.
    pub fn balance(&self, address: &Address) -> (units: u64)
        requires
            self.wf(),
        ensures
            units == self@.balances[*address],
    {
        self.balances.get(address)
    }

    /// The protocol configuration stored at `address`, if there is one.
    pub fn protocol(&self, address: &Address) -> (r: Option<Protocol>)
        requires
            self.wf(),
        ensures
            r == (if self@.protocols.dom().contains(*address) {
                Some(self@.protocols[*address])
            } else {
                None
            }),
    {
        match self.protocols.get(address) {
            Some(protocol) => Some(*protocol),
            None => None,
        }
    }

    /// The vault record stored at `address`, if there is one.
    pub fn vault(&self, address: &Address) -> (r: Option<Vault>)
        requires
            self.wf(),
        ensures
            r == (if self@.vaults.dom().contains(*address) {
                Some(self@.vaults[*address])
            } else {
                None
            }),
    {
        match self.vaults.get(address) {
            Some(vault) => Some(*vault),
            None => None,
        }
    }

    /// The collaborator's control record of `asset`, if the asset exists.
    pub fn asset(&self, asset: &Address) -> (r: Option<AssetRecord>)
        requires
            self.wf(),
        ensures
            r == (if self@.assets.dom().contains(*asset) {
                Some(self@.assets[*asset])
            } else {
                None
            }),
    {
        self.registry.record(asset)
    }

    /// The description of the asset or collection at `address`.
    pub fn metadata(&self, address: &Address) -> (r: Option<&Metadata>)
        requires
            self.wf(),
        ensures
            match r {
                Some(metadata) => self@.metadata.dom().contains(*address)
                    && self@.metadata[*address] == metadata@,
                None => !self@.metadata.dom().contains(*address),
            },
    {
        self.registry.describe(address)
    }

    /// Carries out a payment. Refuses, and changes nothing, where the
    /// paying account holds less than the payment.
    pub fn pay(&mut self, payment: &Payment) -> (paid: bool)
        requires
            old(self).wf(),
        ensures
            final(self).wf(),
            paid == (old(self)@.balances[payment.from] >= payment.lamports),
            paid ==> final(self)@ == (LedgerState {
                balances: moved(
                    old(self)@.balances,
                    payment.from,
                    payment.to,
                    payment.lamports as nat,
                ),
                ..old(self)@
            }),
            !paid ==> final(self)@ == old(self)@,
    {
        self.balances.transfer(&payment.from, &payment.to, payment.lamports)
    }

    /// Takes back a payment that has just been carried out.
    pub(crate) fn refund(&mut self, payment: &Payment)
        requires
            old(self).wf(),
            old(self)@.balances[payment.to] >= payment.lamports,
        ensures
            final(self).wf(),
            final(self)@ == (LedgerState {
                balances: moved(
                    old(self)@.balances,
                    payment.to,
                    payment.from,
                    payment.lamports as nat,
                ),
                ..old(self)@
            }),
    {
        let returned = self.balances.transfer(&payment.to, &payment.from, payment.lamports);
        assert(returned);
    }

    /// Has the collaborator carry out `request`, where the request proves
    /// control of `controller`. The collaborator refuses, and nothing
    /// changes, unless that is the acting authority of the request and that
    /// authority may move the asset.
    pub fn carry_out(&mut self, request: &TransferRequest, controller: &Option<Address>) -> (moved:
        bool)
        requires
            old(self).wf(),
        ensures
            final(self).wf(),
            moved == old(self)@.accepts(*request, address_bytes(*controller)),
            moved ==> final(self)@ == (LedgerState {
                assets: transferred(old(self)@.assets, request.asset, request.new_owner),
                ..old(self)@
            }),
            !moved ==> final(self)@ == old(self)@,
    {
        let authority = request.acting();
        proof {
            if let Some(a) = *controller {
                if a@ == authority@ {
                    Address::lemma_view_decides(a, authority);
                }
            }
        }
        if !is_address(controller, &authority) {
            return false;
        }
        self.registry.transfer(&request.asset, &request.collection, &authority, &request.new_owner)
    }

    /// Has the collaborator carry out `request`, with the proof of control
    /// that the request gives under this program: the address that its
    /// signer seeds derive, or the signature of its acting authority.
    pub fn transfer_asset(&mut self, request: &TransferRequest) -> (moved: bool)
        requires
            old(self).wf(),
        ensures
            final(self).wf(),
            moved == old(self)@.accepts(*request, request.controller(old(self)@.program)),
            moved ==> final(self)@ == (LedgerState {
                assets: transferred(old(self)@.assets, request.asset, request.new_owner),
                ..old(self)@
            }),
            !moved ==> final(self)@ == old(self)@,
    {
        let controller = match request.signer_seeds {
            Some(seeds) => derive_vault_authority(&seeds.asset, seeds.bump, &self.program),
            None => {
                let authority = request.acting();
                if can_sign(&authority) {
                    Some(authority)
                } else {
                    None
                }
            },
        };
        self.carry_out(request, &controller)
    }

    /// Lets `delegate` transfer `asset`, or ends the delegation where
    /// `delegate` is `None`. The collaborator refuses, and nothing changes,
    /// unless `authority` is the owner of the asset and can sign.
    pub fn approve(&mut self, asset: &Address, authority: &Address, delegate: Option<Address>) -> (approved:
        bool)
        requires
            old(self).wf(),
        ensures
            final(self).wf(),
            approved == (signs(*authority) && old(self)@.assets.dom().contains(*asset)
                && old(self)@.assets[*asset].owner == *authority),
            approved ==> final(self)@ == (LedgerState {
                assets: old(self)@.assets.insert(
                    *asset,
                    AssetRecord {
                        owner: *authority,
                        collection: old(self)@.assets[*asset].collection,
                        delegate,
                    },
                ),
                ..old(self)@
            }),
            !approved ==> final(self)@ == old(self)@,
    {
        if !can_sign(authority) {
            return false;
        }
        self.registry.approve(asset, authority, delegate)
    }

    /// Brings `lamports` new units into circulation at `address`. Refuses, and
    /// changes nothing, where the units in circulation would no longer fit in
    /// a `u64`.
    pub fn fund(&mut self, address: &Address, lamports: u64) -> (funded: bool)
        requires
            old(self).wf(),
        ensures
            final(self).wf(),
            funded == (old(self)@.supply + lamports <= u64::MAX),
            funded ==> final(self)@ == (LedgerState {
                balances: old(self)@.balances.insert(
                    *address,
                    old(self)@.balances[*address] + lamports as nat,
                ),
                supply: old(self)@.supply + lamports as nat,
                ..old(self)@
            }),
            !funded ==> final(self)@ == old(self)@,
    {
        self.balances.mint(address, lamports)
    }
}

} // verus!
