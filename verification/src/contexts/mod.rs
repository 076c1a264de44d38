pub mod create_asset;
pub mod create_collection;
pub mod initialize_protocol;
pub mod lock_asset;
pub mod swap_asset;

pub use create_asset::{CreateAsset, CreateAssetArgs};
pub use create_collection::{CreateCollection, CreateCollectionArgs};
pub use initialize_protocol::InitializeProtocol;
pub use lock_asset::LockAsset;
pub use swap_asset::SwapAsset;
