use crate::pubkey::Pubkey;
use vstd::bytes::spec_u64_to_le_bytes;
use vstd::bytes::u64_to_le_bytes;
use vstd::prelude::*;
use vstd::slice::slice_to_vec;
use vstd::utf8::encode_utf8;

verus! {

/// Namespace of record addresses: the bytes of `avatar_v1`.
pub const AVATAR_SEED: [u8; 9] = [97, 118, 97, 116, 97, 114, 95, 118, 49];

/// Namespace of escrow addresses: the bytes of `avatar_escrow`.
pub const ESCROW_SEED: [u8; 13] = [97, 118, 97, 116, 97, 114, 95, 101, 115, 99, 114, 111, 119];

/// Namespace of the registry's address: the bytes of `avatar_registry`.
pub const REGISTRY_SEED: [u8; 15] = [
    97, 118, 97, 116, 97, 114, 95, 114, 101, 103, 105, 115, 116, 114, 121,
];

/// What tells one record's address from another's within a namespace.
///
/// A deployment uses one of the two: the index that the registry issued, or the
/// digest of the content reference, under which the same content can be
/// registered once only.
#[derive(Clone, Copy, Debug, PartialEq, Eq)]
pub enum Discriminant {
    Sequential(u64),
    ContentHash([u8; 32]),
}

/// An address that belongs to the program, with the bump that proves it.
///
/// No secret key exists for such an address: whoever presents the seeds and the
/// bump to the host acts for it.
#[derive(Clone, Copy, Debug, PartialEq, Eq)]
pub struct DerivedAddress {
    pub address: Pubkey,
    pub bump: u8,
}

/// The address and bump that `Pubkey::try_find_program_address` of `solana-pubkey`
/// returns for these seeds and this program, or `None` where it returns none.
pub uninterp spec fn program_address(seeds: Seq<Seq<u8>>, program_id: Pubkey) -> Option<
    (Pubkey, u8),
>;

/// The SHA-256 digest of `data`, as `hash` of `solana-sha256-hasher` computes it.
pub uninterp spec fn sha256(data: Seq<u8>) -> [u8; 32];

/// Calls `Pubkey::try_find_program_address` (reached as `anchor_lang::prelude::Pubkey`).
///
/// Believed, not proved: the outcome depends on the seeds and the program's
/// key alone, so it is the value that [`program_address`] names.
#[verifier::external_body]
pub(crate) fn try_find_program_address(seeds: &Vec<Vec<u8>>, program_id: &Pubkey) -> (found: Option<
    (Pubkey, u8),
>)
    ensures
        found == program_address(seeds@.map_values(|seed: Vec<u8>| seed@), *program_id),
{
    let parts: Vec<&[u8]> = seeds.iter().map(|seed| seed.as_slice()).collect();
    let program = anchor_lang::prelude::Pubkey::new_from_array(program_id.bytes);
    match anchor_lang::prelude::Pubkey::try_find_program_address(&parts, &program) {
        Some((address, bump)) => Some((Pubkey { bytes: address.to_bytes() }, bump)),
        None => None,
    }
}

/// Calls `anchor_lang::solana_program::hash::hash`.
///
/// Believed, not proved: the digest depends on the bytes alone, so it is the
/// value that [`sha256`] names.
#[verifier::external_body]
fn hash(data: &[u8]) -> (digest: [u8; 32])
    ensures
        digest == sha256(data@),
{
    anchor_lang::solana_program::hash::hash(data).to_bytes()
}

impl Discriminant {
    /// The bytes that enter the derivation: the index as eight little-endian
    /// bytes, or the thirty-two bytes of the digest.
    pub open spec fn seed(self) -> Seq<u8> {
        match self {
            Discriminant::Sequential(index) => spec_u64_to_le_bytes(index),
            Discriminant::ContentHash(digest) => digest@,
        }
    }

    pub fn to_seed(&self) -> (bytes: Vec<u8>)
        ensures
            bytes@ == self.seed(),
    {
        match self {
            Discriminant::Sequential(index) => u64_to_le_bytes(*index),
            Discriminant::ContentHash(digest) => slice_to_vec(digest.as_slice()),
        }
    }
}

/// The discriminant under which a content reference is registered where
/// records are addressed by content.
pub open spec fn content_hash(uri_ipfs_hash: Seq<char>) -> Discriminant {
    Discriminant::ContentHash(sha256(encode_utf8(uri_ipfs_hash)))
}

/// Digests a content reference into its discriminant.
pub fn content_discriminant(uri_ipfs_hash: &str) -> (discriminant: Discriminant)
    ensures
        discriminant == content_hash(uri_ipfs_hash@),
{
    Discriminant::ContentHash(hash(uri_ipfs_hash.as_bytes()))
}

/// The seeds of an address: its namespace, then its discriminant.
pub open spec fn address_seeds(namespace: Seq<u8>, discriminant: Discriminant) -> Seq<Seq<u8>> {
    seq![namespace, discriminant.seed()]
}

/// The seeds that sign for a derived address: those of the address, then the bump.
pub open spec fn authority_seeds(namespace: Seq<u8>, discriminant: Discriminant, bump: u8) -> Seq<
    Seq<u8>,
> {
    seq![namespace, discriminant.seed(), seq![bump]]
}

pub open spec fn derived(found: Option<(Pubkey, u8)>) -> Option<DerivedAddress> {
    match found {
        Some((address, bump)) => Some(DerivedAddress { address, bump }),
        None => None,
    }
}

/// The address derived for `discriminant` in `namespace` under `program_id`.
pub open spec fn derived_address(
    namespace: Seq<u8>,
    discriminant: Discriminant,
    program_id: Pubkey,
) -> Option<DerivedAddress> {
    derived(program_address(address_seeds(namespace, discriminant), program_id))
}

pub open spec fn record_address(discriminant: Discriminant, program_id: Pubkey) -> Option<
    DerivedAddress,
> {
    derived_address(AVATAR_SEED@, discriminant, program_id)
}

pub open spec fn escrow_address(discriminant: Discriminant, program_id: Pubkey) -> Option<
    DerivedAddress,
> {
    derived_address(ESCROW_SEED@, discriminant, program_id)
}

pub open spec fn registry_address(program_id: Pubkey) -> Option<DerivedAddress> {
    derived(program_address(seq![REGISTRY_SEED@], program_id))
}

/// Derives the address of `discriminant` in `namespace`. `None` where no
/// address exists for these seeds.
pub fn find_address(namespace: &[u8], discriminant: &Discriminant, program_id: &Pubkey) -> (found:
    Option<DerivedAddress>)
    ensures
        found == derived_address(namespace@, *discriminant, *program_id),
{
    let mut seeds: Vec<Vec<u8>> = Vec::new();
    seeds.push(slice_to_vec(namespace));
    seeds.push(discriminant.to_seed());
    assert(seeds@.map_values(|seed: Vec<u8>| seed@) =~= address_seeds(
        namespace@,
        *discriminant,
    ));
    match try_find_program_address(&seeds, program_id) {
        Some((address, bump)) => Some(DerivedAddress { address, bump }),
        None => None,
    }
}

/// Derives the address at which the record of `discriminant` is kept.
pub fn find_record_address(discriminant: &Discriminant, program_id: &Pubkey) -> (found: Option<
    DerivedAddress,
>)
    ensures
        found == record_address(*discriminant, *program_id),
{
    find_address(AVATAR_SEED.as_slice(), discriminant, program_id)
}

/// Derives the address of the escrow paired with the record of `discriminant`.
pub fn find_escrow_address(discriminant: &Discriminant, program_id: &Pubkey) -> (found: Option<
    DerivedAddress,
>)
    ensures
        found == escrow_address(*discriminant, *program_id),
{
    find_address(ESCROW_SEED.as_slice(), discriminant, program_id)
}

/// Derives the address of the one registry of a deployment.
pub fn find_registry_address(program_id: &Pubkey) -> (found: Option<DerivedAddress>)
    ensures
        found == registry_address(*program_id),
{
    let mut seeds: Vec<Vec<u8>> = Vec::new();
    seeds.push(slice_to_vec(REGISTRY_SEED.as_slice()));
    assert(seeds@.map_values(|seed: Vec<u8>| seed@) =~= seq![REGISTRY_SEED@]);
    match try_find_program_address(&seeds, program_id) {
        Some((address, bump)) => Some(DerivedAddress { address, bump }),
        None => None,
    }
}

/// Whether `key` is the address derived for `discriminant` in `namespace`.
pub fn is_derived_address(
    key: &Pubkey,
    namespace: &[u8],
    discriminant: &Discriminant,
    program_id: &Pubkey,
) -> (matches: bool)
    ensures
        matches == match derived_address(namespace@, *discriminant, *program_id) {
            Some(found) => found.address == *key,
            None => false,
        },
{
    match find_address(namespace, discriminant, program_id) {
        Some(found) => found.address == *key,
        None => false,
    }
}

/// The seeds to present to the host when acting for a derived address.
pub fn signer_seeds(namespace: &[u8], discriminant: &Discriminant, bump: u8) -> (seeds: Vec<
    Vec<u8>,
>)
    ensures
        seeds@.map_values(|seed: Vec<u8>| seed@) == authority_seeds(
            namespace@,
            *discriminant,
            bump,
        ),
{
    let mut seeds: Vec<Vec<u8>> = Vec::new();
    seeds.push(slice_to_vec(namespace));
    seeds.push(discriminant.to_seed());
    let mut last: Vec<u8> = Vec::new();
    last.push(bump);
    seeds.push(last);
    assert(seeds@.map_values(|seed: Vec<u8>| seed@) =~= authority_seeds(
        namespace@,
        *discriminant,
        bump,
    ));
    seeds
}

} // verus!
