//! Deterministic addresses: every record of the protocol lives at the
//! address that the ledger derives from a tag, the record's seeds and the
//! program's identity.

use crate::pubkey::Pubkey;
use vstd::bytes::spec_u64_to_le_bytes;
use vstd::bytes::u64_to_le_bytes;
use vstd::prelude::*;
use vstd::string::StrSliceExecFns;
use vstd::string::StringSliceAdditionalSpecFns;
use vstd::utf8::encode_utf8;

verus! {

/// The address and bump seed that the ledger derives for `seeds` under the
/// program `program_id`, or `None` where it derives none. It depends on the
/// seeds and the program alone, so the same seeds always name the same
/// address.
pub uninterp spec fn program_address(seeds: Seq<Seq<u8>>, program_id: Seq<u8>) -> Option<
    (Seq<u8>, u8),
>;

/// The bytes of each seed of a list, in order.
pub open spec fn seed_bytes(seeds: Seq<Vec<u8>>) -> Seq<Seq<u8>> {
    Seq::new(seeds.len(), |i: int| seeds[i]@)
}

/// A derived address and bump seed as bytes.
pub open spec fn address_bytes(found: Option<(Pubkey, u8)>) -> Option<(Seq<u8>, u8)> {
    match found {
        Some((address, bump)) => Some((address@, bump)),
        None => None,
    }
}

/// Whether `key` is the address that a derivation gave.
pub open spec fn at_address(key: Pubkey, derived: Option<(Seq<u8>, u8)>) -> bool {
    derived matches Some((address, _)) && key@ == address
}

/// A tag in front of the seeds of a record: the list of seeds that names
/// the record.
pub open spec fn tagged_seeds(tag: Seq<char>, seeds: Seq<Seq<u8>>) -> Seq<Seq<u8>> {
    seq![encode_utf8(tag)] + seeds
}

/// The seeds of the protocol's one configuration record.
pub open spec fn config_seeds() -> Seq<Seq<u8>> {
    tagged_seeds("config"@, seq![])
}

/// The seeds of the registry entry of `username`.
pub open spec fn username_seeds(username: Seq<char>) -> Seq<Seq<u8>> {
    tagged_seeds("username"@, seq![encode_utf8(username)])
}

/// The seeds of the creator account that `owner` owns.
pub open spec fn creator_seeds(owner: Pubkey) -> Seq<Seq<u8>> {
    tagged_seeds("creator"@, seq![owner@])
}

/// The seeds of the receipt of `buyer` for the content `content_id`: the
/// id enters as eight bytes, least significant first.
pub open spec fn access_seeds(buyer: Pubkey, content_id: u64) -> Seq<Seq<u8>> {
    tagged_seeds("access"@, seq![buyer@, spec_u64_to_le_bytes(content_id)])
}

/// Calls `Pubkey::try_find_program_address` of `anchor_lang`, which hashes
/// the seeds, a bump seed and the program's identity until the hash is no
/// point of the ed25519 curve. The contract claims only that what comes back
/// is the value that the derivation has for these seeds and this program.
#[verifier::external_body]
fn try_find_program_address(seeds: &Vec<Vec<u8>>, program_id: &Pubkey) -> (found: Option<
    (Pubkey, u8),
>)
    ensures
        address_bytes(found) == program_address(seed_bytes(seeds@), program_id@),
{
    let id = anchor_lang::prelude::Pubkey::new_from_array(program_id.bytes);
    let parts: Vec<&[u8]> = seeds.iter().map(|seed| seed.as_slice()).collect();
    match anchor_lang::prelude::Pubkey::try_find_program_address(&parts, &id) {
        Some((address, bump)) => Some((Pubkey { bytes: address.to_bytes() }, bump)),
        None => None,
    }
}

/// Derives the address of the record that `tag` and `seeds` name under the
/// program `program_id`, with the bump seed of the derivation. The same
/// tag, seeds and program always give the same address.
pub fn derive_address(program_id: &Pubkey, tag: &str, seeds: Vec<Vec<u8>>) -> (found: Option<
    (Pubkey, u8),
>)
    ensures
        address_bytes(found) == program_address(
            tagged_seeds(tag@, seed_bytes(seeds@)),
            program_id@,
        ),
{
    let mut all: Vec<Vec<u8>> = Vec::new();
    all.push(tag.as_bytes_vec());
    let mut rest = seeds;
    all.append(&mut rest);
    assert(seed_bytes(all@) =~= tagged_seeds(tag@, seed_bytes(seeds@)));
    try_find_program_address(&all, program_id)
}

/// Derives the address of the configuration record of `program_id`.
pub fn find_config_address(program_id: &Pubkey) -> (found: Option<(Pubkey, u8)>)
    ensures
        address_bytes(found) == program_address(config_seeds(), program_id@),
{
    let seeds: Vec<Vec<u8>> = Vec::new();
    assert(seed_bytes(seeds@) =~= Seq::<Seq<u8>>::empty());
    derive_address(program_id, "config", seeds)
}

/// Derives the address of the registry entry of `username`.
pub fn find_username_address(program_id: &Pubkey, username: &str) -> (found: Option<(Pubkey, u8)>)
    ensures
        address_bytes(found) == program_address(username_seeds(username@), program_id@),
{
    let mut seeds: Vec<Vec<u8>> = Vec::new();
    seeds.push(username.as_bytes_vec());
    assert(seed_bytes(seeds@) =~= seq![encode_utf8(username@)]);
    derive_address(program_id, "username", seeds)
}

/// Derives the address of the creator account that `owner` owns.
pub fn find_creator_address(program_id: &Pubkey, owner: &Pubkey) -> (found: Option<(Pubkey, u8)>)
    ensures
        address_bytes(found) == program_address(creator_seeds(*owner), program_id@),
{
    let mut seeds: Vec<Vec<u8>> = Vec::new();
    seeds.push(owner.to_vec());
    assert(seed_bytes(seeds@) =~= seq![owner@]);
    derive_address(program_id, "creator", seeds)
}

/// Derives the address of the receipt of `buyer` for the content
/// `content_id`.
pub fn find_access_address(program_id: &Pubkey, buyer: &Pubkey, content_id: u64) -> (found: Option<
    (Pubkey, u8),
>)
    ensures
        address_bytes(found) == program_address(access_seeds(*buyer, content_id), program_id@),
{
    let mut seeds: Vec<Vec<u8>> = Vec::new();
    seeds.push(buyer.to_vec());
    seeds.push(u64_to_le_bytes(content_id));
    assert(seed_bytes(seeds@) =~= seq![buyer@, spec_u64_to_le_bytes(content_id)]);
    derive_address(program_id, "access", seeds)
}

/// Whether `key` is the address in `found`.
pub fn is_at(key: &Pubkey, found: &Option<(Pubkey, u8)>) -> (at: bool)
    ensures
        at == at_address(*key, address_bytes(*found)),
{
    match found {
        Some((address, _)) => {
            proof {
                if key@ == address@ {
                    Pubkey::lemma_view_injective(*key, *address);
                }
            }
            *key == *address
        },
        None => false,
    }
}

} // verus!
