pub mod layout;
pub mod protocol;
pub mod vault;

pub use protocol::Protocol;
pub use vault::Vault;
