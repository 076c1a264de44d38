use anchor_lang::prelude::Pubkey;
use vstd::prelude::*;

use crate::address::Address;
use crate::constants::{PROTOCOL_SEED, VAULT_SEED};

verus! {

/// The address that `Pubkey::create_program_address` derives from the seeds
/// and the program's address, or `None` where it derives none.
pub uninterp spec fn created_program_address(seeds: Seq<Seq<u8>>, program: Seq<u8>) -> Option<Seq<u8>>;

/// Whether the thirty-two bytes are a point of the curve on which key pairs
/// live, as `Pubkey::is_on_curve` decides it.
pub uninterp spec fn is_curve_point(bytes: Seq<u8>) -> bool;

/// Whether a signature of `address` can exist: a key pair can exist only
/// for a point of the curve.
pub open spec fn signs(address: Address) -> bool {
    is_curve_point(address@)
}

/// The keyless address derived from the seeds under the program: the
/// address that `Pubkey::create_program_address` derives, which is no point
/// of the curve.
pub open spec fn derived_address(seeds: Seq<Seq<u8>>, program: Seq<u8>) -> Option<Seq<u8>> {
    match created_program_address(seeds, program) {
        Some(address) => if is_curve_point(address) {
            None
        } else {
            Some(address)
        },
        None => None,
    }
}

/// The seeds followed by a salt byte as one more seed.
pub open spec fn salted(seeds: Seq<Seq<u8>>, bump: u8) -> Seq<Seq<u8>> {
    seeds.push(seq![bump])
}

/// Whether `bump` is the salt byte that a search finds for the seeds: the
/// largest byte, zero left out, with which the seeds derive an address.
pub open spec fn finds(seeds: Seq<Seq<u8>>, program: Seq<u8>, bump: u8) -> bool {
    &&& bump >= 1
    &&& derived_address(salted(seeds, bump), program) is Some
    &&& forall|b: u8| bump < b ==> (#[trigger] derived_address(salted(seeds, b), program)) is None
}

/// The address that a search finds for the seeds, with the salt byte that
/// derives it, or `None` where no salt byte derives an address.
pub open spec fn found_program_address(seeds: Seq<Seq<u8>>, program: Seq<u8>) -> Option<
    (Seq<u8>, u8),
> {
    if exists|bump: u8| finds(seeds, program, bump) {
        let bump = choose|bump: u8| finds(seeds, program, bump);
        Some((derived_address(salted(seeds, bump), program).unwrap(), bump))
    } else {
        None
    }
}

/// The bytes of an optional address.
pub open spec fn address_bytes(address: Option<Address>) -> Option<Seq<u8>> {
    match address {
        Some(a) => Some(a@),
        None => None,
    }
}

/// The bytes of an optional address with its salt byte.
pub open spec fn salted_bytes(found: Option<(Address, u8)>) -> Option<(Seq<u8>, u8)> {
    match found {
        Some((a, bump)) => Some((a@, bump)),
        None => None,
    }
}

/// Calls `Pubkey::create_program_address` on the seeds `tag`, the bytes of
/// `identity` and the one byte `bump`, for the program at `program`.
///
/// Believed, not proved: the outcome depends on the seeds and the program's
/// address alone, so it is the named `created_program_address` of them; and
/// an address that comes out is no point of the curve, since the function
/// refuses the seeds that would give one.
#[verifier::external_body]
pub(crate) fn create_program_address(
    tag: &[u8],
    identity: &Address,
    bump: u8,
    program: &Address,
) -> (r: Option<Address>)
    ensures
        address_bytes(r) == created_program_address(
            salted(seq![tag@, identity@], bump),
            program@,
        ),
        address_bytes(r) == derived_address(salted(seq![tag@, identity@], bump), program@),
{
    let program_id = Pubkey::new_from_array(program.bytes);
    let seeds: [&[u8]; 3] = [tag, &identity.bytes, &[bump]];
    match Pubkey::create_program_address(&seeds, &program_id) {
        Ok(key) => Some(Address { bytes: key.to_bytes() }),
        Err(_) => None,
    }
}

/// Calls `Pubkey::try_find_program_address` on the seeds `tag` and the bytes
/// of `identity`, for the program at `program`.
///
/// Believed, not proved: the search tries the salt bytes from 255 down to 1
/// and returns the first with which `Pubkey::create_program_address` derives
/// an address from the seeds followed by that byte, together with that
/// address; it returns `None` where there is no such byte.
#[verifier::external_body]
pub(crate) fn try_find_program_address(tag: &[u8], identity: &Address, program: &Address) -> (r:
    Option<(Address, u8)>)
    ensures
        salted_bytes(r) == found_program_address(seq![tag@, identity@], program@),
{
    let program_id = Pubkey::new_from_array(program.bytes);
    let seeds: [&[u8]; 2] = [tag, &identity.bytes];
    match Pubkey::try_find_program_address(&seeds, &program_id) {
        Some((key, bump)) => Some((Address { bytes: key.to_bytes() }, bump)),
        None => None,
    }
}

/// Calls `Pubkey::is_on_curve` on the key with the bytes of `address`.
///
/// Believed, not proved: the outcome depends on the bytes alone, so it is
/// the named `is_curve_point` of them.
#[verifier::external_body]
pub(crate) fn is_on_curve(address: &Address) -> (b: bool)
    ensures
        b == is_curve_point(address@),
{
    Pubkey::new_from_array(address.bytes).is_on_curve()
}

/// The seeds of the protocol configuration of `owner`.
pub open spec fn protocol_seeds(owner: Address) -> Seq<Seq<u8>> {
    seq![PROTOCOL_SEED@, owner@]
}

/// The seeds of the vault record of `asset`.
pub open spec fn vault_seeds(asset: Address) -> Seq<Seq<u8>> {
    seq![VAULT_SEED@, asset@]
}

/// The address at which the protocol configuration of `owner` lives under
/// `program`, with the salt byte that derives it.
pub open spec fn protocol_address(owner: Address, program: Address) -> Option<(Seq<u8>, u8)> {
    found_program_address(protocol_seeds(owner), program@)
}

/// The address at which the vault record of `asset` lives under `program`,
/// with the salt byte that derives it.
pub open spec fn vault_address(asset: Address, program: Address) -> Option<(Seq<u8>, u8)> {
    found_program_address(vault_seeds(asset), program@)
}

/// The keyless authority that the vault seeds of `asset` with the salt byte
/// `bump` derive under `program`.
pub open spec fn vault_authority(asset: Address, bump: u8, program: Address) -> Option<Seq<u8>> {
    derived_address(salted(vault_seeds(asset), bump), program@)
}

/// What a search finds is what its salt byte derives: the address found for
/// the seeds is the address derived from the seeds followed by the salt byte
/// found.
pub proof fn lemma_found_is_derived(seeds: Seq<Seq<u8>>, program: Seq<u8>)
    ensures
        found_program_address(seeds, program) matches Some((address, bump)) ==> derived_address(
            salted(seeds, bump),
            program,
        ) == Some(address) && !is_curve_point(address),
{
}

/// Finds the address of the protocol configuration of `owner`.
pub fn find_protocol_address(owner: &Address, program: &Address) -> (r: Option<(Address, u8)>)
    ensures
        salted_bytes(r) == protocol_address(*owner, *program),
{
    try_find_program_address(PROTOCOL_SEED.as_slice(), owner, program)
}

/// Finds the address of the vault record of `asset`.
pub fn find_vault_address(asset: &Address, program: &Address) -> (r: Option<(Address, u8)>)
    ensures
        salted_bytes(r) == vault_address(*asset, *program),
{
    try_find_program_address(VAULT_SEED.as_slice(), asset, program)
}

/// Whether a signature of `address` can exist.
pub fn can_sign(address: &Address) -> (b: bool)
    ensures
        b == signs(*address),
{
    is_on_curve(address)
}

/// Whether a signature of `address` can exist, where an address is named.
pub fn can_sign_if_named(address: &Option<Address>) -> (b: bool)
    ensures
        b == (*address matches Some(a) ==> signs(a)),
{
    match address {
        Some(a) => is_on_curve(a),
        None => true,
    }
}

/// Derives the keyless authority of the vault of `asset` from a stored salt
/// byte, without searching.
pub fn derive_vault_authority(asset: &Address, bump: u8, program: &Address) -> (r: Option<Address>)
    ensures
        address_bytes(r) == vault_authority(*asset, bump, *program),
{
    create_program_address(VAULT_SEED.as_slice(), asset, bump, program)
}

} // verus!
