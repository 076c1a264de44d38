use vstd::prelude::*;

use crate::address::{is_address, same_optional, Address};
use crate::table::Table;

verus! {

/// A plugin of the asset standard with the authority that manages it. The
/// registry stores plugins and never looks inside one.
#[verifier::external_type_specification]
#[verifier::external_body]
pub struct ExPluginAuthorityPair(mpl_core::types::PluginAuthorityPair);

/// What the registry knows of who controls an asset.
#[derive(Clone, Copy, Debug, PartialEq, Eq)]
pub struct AssetRecord {
    /// The owner of the asset.
    pub owner: Address,
    /// The collection that the asset belongs to, if any.
    pub collection: Option<Address>,
    /// Whoever the owner has allowed to transfer the asset, if anyone.
    pub delegate: Option<Address>,
}

/// How an asset or a collection was described when it was created.
pub struct Metadata {
    pub name: String,
    pub uri: String,
    pub plugins: Option<Vec<mpl_core::types::PluginAuthorityPair>>,
}

/// A description, as mathematical values.
pub struct MetadataView {
    pub name: Seq<char>,
    pub uri: Seq<char>,
    pub plugins: Option<Seq<mpl_core::types::PluginAuthorityPair>>,
}

impl View for Metadata {
    type V = MetadataView;

    open spec fn view(&self) -> MetadataView {
        MetadataView {
            name: self.name@,
            uri: self.uri@,
            plugins: match self.plugins {
                Some(plugins) => Some(plugins@),
                None => None,
            },
        }
    }
}

/// The descriptions of a table, as mathematical values.
pub open spec fn described(metadata: Map<Address, Metadata>) -> Map<Address, MetadataView> {
    Map::new(|a: Address| metadata.dom().contains(a), |a: Address| metadata[a]@)
}

/// Whether neither an asset nor a collection lives at `address`.
pub open spec fn vacant(
    assets: Map<Address, AssetRecord>,
    collections: Map<Address, Address>,
    address: Address,
) -> bool {
    !assets.dom().contains(address) && !collections.dom().contains(address)
}

/// Whether the registry creates an asset at `asset` in `collection`: the
/// address is vacant, and the collection, where one is named, exists.
pub open spec fn accepts_asset(
    assets: Map<Address, AssetRecord>,
    collections: Map<Address, Address>,
    asset: Address,
    collection: Option<Address>,
) -> bool {
    &&& vacant(assets, collections, asset)
    &&& collection matches Some(c) ==> collections.dom().contains(c)
}

/// Whether `authority` controls `asset`: the asset exists, and the authority
/// is its owner or its delegate.
pub open spec fn controls(assets: Map<Address, AssetRecord>, asset: Address, authority: Address) -> bool {
    &&& assets.dom().contains(asset)
    &&& (assets[asset].owner == authority || assets[asset].delegate == Some(authority))
}

/// Whether the registry moves `asset` at the request of `authority`: the
/// authority controls the asset, and `collection` is the collection that the
/// asset belongs to.
pub open spec fn accepts_transfer(
    assets: Map<Address, AssetRecord>,
    asset: Address,
    collection: Option<Address>,
    authority: Address,
) -> bool {
    &&& controls(assets, asset, authority)
    &&& assets[asset].collection == collection
}

/// The assets after `asset` has gone to `new_owner`. The transfer ends any
/// delegation.
pub open spec fn transferred(assets: Map<Address, AssetRecord>, asset: Address, new_owner: Address) -> Map<
    Address,
    AssetRecord,
> {
    assets.insert(
        asset,
        AssetRecord { owner: new_owner, collection: assets[asset].collection, delegate: None },
    )
}

/// The asset-management collaborator's books: which assets and collections
/// exist, and who controls each asset. The escrow never writes these books
/// itself; it asks the registry, which decides.
pub struct AssetRegistry {
    assets: Table<AssetRecord>,
    collections: Table<Address>,
    metadata: Table<Metadata>,
}

impl AssetRegistry {
    /// No address is both an asset and a collection, and exactly the assets
    /// and the collections have a description.
    pub closed spec fn wf(&self) -> bool {
        &&& self.assets.wf()
        &&& self.collections.wf()
        &&& self.metadata.wf()
        &&& forall|a: Address|
            !(self.assets@.dom().contains(a) && self.collections@.dom().contains(a))
        &&& forall|a: Address|
            self.metadata@.dom().contains(a) <==> (self.assets@.dom().contains(a)
                || self.collections@.dom().contains(a))
    }

    /// The control record of each asset.
    pub closed spec fn assets(&self) -> Map<Address, AssetRecord> {
        self.assets@
    }

    /// The update authority of each collection.
    pub closed spec fn collections(&self) -> Map<Address, Address> {
        self.collections@
    }

    /// The description of each asset and collection.
    pub closed spec fn metadata(&self) -> Map<Address, MetadataView> {
        described(self.metadata@)
    }

    /// An asset is no collection, and exactly the assets and the collections
    /// are described.
    pub proof fn lemma_kinds(&self)
        requires
            self.wf(),
        ensures
            forall|a: Address|
                !(self.assets().dom().contains(a) && self.collections().dom().contains(a)),
            forall|a: Address|
                self.metadata().dom().contains(a) <==> (self.assets().dom().contains(a)
                    || self.collections().dom().contains(a)),
    {
    }

    /// Books without assets or collections.
    pub fn new() -> (registry: AssetRegistry)
        ensures
            registry.wf(),
            registry.assets() == Map::<Address, AssetRecord>::empty(),
            registry.collections() == Map::<Address, Address>::empty(),
            registry.metadata() == Map::<Address, MetadataView>::empty(),
    {
        let registry = AssetRegistry {
            assets: Table::new(),
            collections: Table::new(),
            metadata: Table::new(),
        };
        assert(registry.metadata() =~= Map::<Address, MetadataView>::empty());
        registry
    }

    /// The control record of `asset`, if the asset exists.
    pub fn record(&self, asset: &Address) -> (r: Option<AssetRecord>)
        requires
            self.wf(),
        ensures
            r == (if self.assets().dom().contains(*asset) {
                Some(self.assets()[*asset])
            } else {
                None
            }),
    {
        match self.assets.get(asset) {
            Some(record) => Some(*record),
            None => None,
        }
    }

    /// The update authority of `collection`, if the collection exists.
    pub fn update_authority(&self, collection: &Address) -> (r: Option<Address>)
        requires
            self.wf(),
        ensures
            r == (if self.collections().dom().contains(*collection) {
                Some(self.collections()[*collection])
            } else {
                None
            }),
    {
        match self.collections.get(collection) {
            Some(authority) => Some(*authority),
            None => None,
        }
    }

    /// The description of the asset or collection at `address`.
    pub fn describe(&self, address: &Address) -> (r: Option<&Metadata>)
        requires
            self.wf(),
        ensures
            match r {
                Some(metadata) => self.metadata().dom().contains(*address)
                    && self.metadata()[*address] == metadata@,
                None => !self.metadata().dom().contains(*address),
            },
    {
        self.metadata.get(address)
    }

    /// Creates a collection at `collection`. Refused, with nothing changed,
    /// where an asset or a collection lives there already.
    pub fn create_collection(
        &mut self,
        collection: Address,
        update_authority: Address,
        metadata: Metadata,
    ) -> (created: bool)
        requires
            old(self).wf(),
        ensures
            final(self).wf(),
            created == vacant(old(self).assets(), old(self).collections(), collection),
            created ==> {
                &&& final(self).assets() == old(self).assets()
                &&& final(self).collections() == old(self).collections().insert(
                    collection,
                    update_authority,
                )
                &&& final(self).metadata() == old(self).metadata().insert(collection, metadata@)
            },
            !created ==> *final(self) == *old(self),
    {
        if self.assets.contains(&collection) || self.collections.contains(&collection) {
            return false;
        }
        self.collections.insert(collection, update_authority);
        self.metadata.insert(collection, metadata);
        assert(self.metadata() =~= old(self).metadata().insert(collection, metadata@));
        true
    }

    /// Creates an asset at `asset`, owned by `owner`, without a delegate.
    /// Refused, with nothing changed, where an asset or a collection lives
    /// there already, or where `collection` names no collection.
    pub fn create_asset(
        &mut self,
        asset: Address,
        owner: Address,
        collection: Option<Address>,
        metadata: Metadata,
    ) -> (created: bool)
        requires
            old(self).wf(),
        ensures
            final(self).wf(),
            created == accepts_asset(old(self).assets(), old(self).collections(), asset, collection),
            created ==> {
                &&& final(self).assets() == old(self).assets().insert(
                    asset,
                    AssetRecord { owner, collection, delegate: None },
                )
                &&& final(self).collections() == old(self).collections()
                &&& final(self).metadata() == old(self).metadata().insert(asset, metadata@)
            },
            !created ==> *final(self) == *old(self),
    {
        if self.assets.contains(&asset) || self.collections.contains(&asset) {
            return false;
        }
        match collection {
            Some(c) => {
                if !self.collections.contains(&c) {
                    return false;
                }
            },
            None => {},
        }
        self.assets.insert(asset, AssetRecord { owner, collection, delegate: None });
        self.metadata.insert(asset, metadata);
        assert(self.metadata() =~= old(self).metadata().insert(asset, metadata@));
        true
    }

    /// Lets `delegate` transfer `asset`, or ends the delegation where
    /// `delegate` is `None`. Refused, with nothing changed, unless
    /// `authority` is the owner of the asset.
    pub fn approve(&mut self, asset: &Address, authority: &Address, delegate: Option<Address>) -> (approved:
        bool)
        requires
            old(self).wf(),
        ensures
            final(self).wf(),
            approved == (old(self).assets().dom().contains(*asset) && old(self).assets()[*asset].owner
                == *authority),
            approved ==> {
                &&& final(self).assets() == old(self).assets().insert(
                    *asset,
                    AssetRecord {
                        owner: *authority,
                        collection: old(self).assets()[*asset].collection,
                        delegate,
                    },
                )
                &&& final(self).collections() == old(self).collections()
                &&& final(self).metadata() == old(self).metadata()
            },
            !approved ==> *final(self) == *old(self),
    {
        let record = match self.assets.get(asset) {
            Some(record) => *record,
            None => { return false; },
        };
        if !record.owner.same(authority) {
            return false;
        }
        self.assets.insert(
            *asset,
            AssetRecord { owner: record.owner, collection: record.collection, delegate },
        );
        true
    }

    /// Moves `asset` to `new_owner` at the request of `authority`, and ends
    /// any delegation. Refused, with nothing changed, unless `authority` is
    /// the owner or the delegate of the asset and `collection` is the
    /// collection that the asset belongs to.
    pub fn transfer(
        &mut self,
        asset: &Address,
        collection: &Option<Address>,
        authority: &Address,
        new_owner: &Address,
    ) -> (moved: bool)
        requires
            old(self).wf(),
        ensures
            final(self).wf(),
            moved == accepts_transfer(old(self).assets(), *asset, *collection, *authority),
            moved ==> {
                &&& final(self).assets() == transferred(old(self).assets(), *asset, *new_owner)
                &&& final(self).collections() == old(self).collections()
                &&& final(self).metadata() == old(self).metadata()
            },
            !moved ==> *final(self) == *old(self),
    {
        let record = match self.assets.get(asset) {
            Some(record) => *record,
            None => { return false; },
        };
        if !record.owner.same(authority) && !is_address(&record.delegate, authority) {
            return false;
        }
        if !same_optional(&record.collection, collection) {
            return false;
        }
        self.assets.insert(
            *asset,
            AssetRecord { owner: *new_owner, collection: record.collection, delegate: None },
        );
        true
    }
}

} // verus!
