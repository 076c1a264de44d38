use vstd::prelude::*;

use crate::address::Address;

verus! {

/// The tag under which the address of a protocol configuration is derived.
pub const PROTOCOL_SEED: [u8; 8] = [112, 114, 111, 116, 111, 99, 111, 108];

/// The tag under which the address of a vault record is derived.
pub const VAULT_SEED: [u8; 5] = [118, 97, 117, 108, 116];

/// The bytes of the address of this program, under which record addresses
/// and vault authorities are derived.
pub const PROGRAM_ID: [u8; 32] = [
    77, 242, 150, 179, 17, 7, 14, 144, 170, 79, 121, 235, 142, 181, 231, 80,
    229, 219, 97, 194, 23, 201, 100, 29, 32, 18, 178, 139, 251, 4, 76, 189,
];

/// The bytes of the address of the system program, which moves native
/// currency.
pub const SYSTEM_PROGRAM: [u8; 32] = [
    0, 0, 0, 0, 0, 0, 0, 0, 0, 0, 0, 0, 0, 0, 0, 0,
    0, 0, 0, 0, 0, 0, 0, 0, 0, 0, 0, 0, 0, 0, 0, 0,
];

/// The bytes of the address of the asset-management collaborator.
pub const ASSET_PROGRAM: [u8; 32] = [
    175, 84, 171, 16, 189, 151, 165, 66, 160, 158, 247, 179, 152, 137, 221, 12,
    211, 148, 164, 204, 233, 223, 166, 205, 201, 126, 190, 45, 35, 91, 167, 72,
];

/// The units of native currency in one whole coin.
pub const UNITS_PER_COIN: u64 = 1_000_000_000;

/// The address of the system program, read from
/// `anchor_lang::system_program::ID`.
///
/// Believed, not proved: its bytes are those of `SYSTEM_PROGRAM`.
#[verifier::external_body]
pub(crate) fn system_program() -> (address: Address)
    ensures
        address@ == SYSTEM_PROGRAM@,
{
    Address { bytes: anchor_lang::system_program::ID.to_bytes() }
}

/// The address of the asset-management collaborator, read from
/// `mpl_core::ID`.
///
/// Believed, not proved: its bytes are those of `ASSET_PROGRAM`.
#[verifier::external_body]
pub(crate) fn asset_program() -> (address: Address)
    ensures
        address@ == ASSET_PROGRAM@,
{
    Address { bytes: mpl_core::ID.to_bytes() }
}

/// The units in one whole coin, read from
/// `anchor_lang::solana_program::native_token::LAMPORTS_PER_SOL`.
///
/// Believed, not proved: the constant is `UNITS_PER_COIN`.
#[verifier::external_body]
pub(crate) fn lamports_per_sol() -> (units: u64)
    ensures
        units == UNITS_PER_COIN,
{
    anchor_lang::solana_program::native_token::LAMPORTS_PER_SOL
}

/// The address of this program.
pub fn program_id() -> (address: Address)
    ensures
        address@ == PROGRAM_ID@,
{
    Address::new(PROGRAM_ID)
}

/// Whether `address` is the system program.
pub fn is_system_program(address: &Address) -> (b: bool)
    ensures
        b == (address@ == SYSTEM_PROGRAM@),
{
    let expected = system_program();
    proof {
        if address@ == expected@ {
            Address::lemma_view_decides(*address, expected);
        }
    }
    address.same(&expected)
}

/// Whether `address` is the asset-management collaborator.
pub fn is_asset_program(address: &Address) -> (b: bool)
    ensures
        b == (address@ == ASSET_PROGRAM@),
{
    let expected = asset_program();
    proof {
        if address@ == expected@ {
            Address::lemma_view_decides(*address, expected);
        }
    }
    address.same(&expected)
}

/// The flat price of a swap: one whole coin.
pub fn flat_price() -> (units: u64)
    ensures
        units == UNITS_PER_COIN,
{
    lamports_per_sol()
}

} // verus!
