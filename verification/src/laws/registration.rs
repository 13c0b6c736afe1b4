//! Laws of registration and of addresses: that content registers once, that
//! indices are not reused, that seeds are never ambiguous, and that a record
//! fits where it is stored.

use crate::address::address_seeds;
use crate::address::content_hash;
use crate::address::escrow_address;
use crate::address::record_address;
use crate::address::Discriminant;
use crate::address::AVATAR_SEED;
use crate::address::ESCROW_SEED;
use crate::error::CustomError;
use crate::initialize::InitializeAvatar;
use crate::pubkey::Pubkey;
use crate::state::AvatarData;
use vstd::bytes::lemma_auto_spec_u64_to_from_le_bytes;
use vstd::bytes::spec_u64_from_le_bytes;
use vstd::prelude::*;

verus! {

/// Whether `namespace` is that of the records or that of the escrows.
pub open spec fn is_account_namespace(namespace: Seq<u8>) -> bool {
    namespace == AVATAR_SEED@ || namespace == ESCROW_SEED@
}

/// Where records are addressed by their content, the same content cannot be
/// registered twice. Both registrations derive the same record and escrow
/// addresses; once the first has gone through, the second finds them in use,
/// is refused with `RecordAlreadyExists` whatever cap and fee it asks for,
/// and leaves the first record as it is.
pub proof fn lemma_duplicate_content_refused(
    ctx: InitializeAvatar,
    program_id: Pubkey,
    first: String,
    second: String,
    max_supply: u64,
    minting_fee_per_mint: u64,
    other_max_supply: u64,
    other_fee_per_mint: u64,
)
    requires
        ctx.registry is None,
        ctx.outcome(first, max_supply, minting_fee_per_mint).0 is Ok,
        first@ == second@,
    ensures
        ({
            let after = ctx.outcome(first, max_supply, minting_fee_per_mint).1;
            &&& after.discriminant_for(second@) == ctx.discriminant_for(first@)
            &&& after.discriminant_for(second@) == content_hash(first@)
            &&& record_address(after.discriminant_for(second@), program_id) == record_address(
                ctx.discriminant_for(first@),
                program_id,
            )
            &&& escrow_address(after.discriminant_for(second@), program_id) == escrow_address(
                ctx.discriminant_for(first@),
                program_id,
            )
            &&& after.outcome(second, other_max_supply, other_fee_per_mint) == (
                Err::<(), CustomError>(CustomError::RecordAlreadyExists),
                after,
            )
        }),
{
}

/// With a registry, each registration that goes through gets the index the
/// registry stood at and moves the registry one up: the next registration
/// gets a higher index, so no index is given out twice.
pub proof fn lemma_indices_are_not_reused(
    ctx: InitializeAvatar,
    uri_ipfs_hash: String,
    max_supply: u64,
    minting_fee_per_mint: u64,
)
    requires
        ctx.registry is Some,
        ctx.outcome(uri_ipfs_hash, max_supply, minting_fee_per_mint).0 is Ok,
    ensures
        ({
            let after = ctx.outcome(uri_ipfs_hash, max_supply, minting_fee_per_mint).1;
            &&& after.registry is Some
            &&& after.registry->0.next_index == ctx.registry->0.next_index + 1
            &&& after.avatar_data->0.discriminant == Discriminant::Sequential(
                ctx.registry->0.next_index,
            )
        }),
{
}

/// A discriminant is found again from its seed: two that differ have
/// different seeds, whichever kind each is of.
pub proof fn lemma_seed_tells_discriminant(first: Discriminant, second: Discriminant)
    requires
        first.seed() == second.seed(),
    ensures
        first == second,
{
    lemma_auto_spec_u64_to_from_le_bytes();
    match (first, second) {
        (Discriminant::Sequential(a), Discriminant::Sequential(b)) => {
            assert(a == spec_u64_from_le_bytes(first.seed()));
        },
        (Discriminant::ContentHash(a), Discriminant::ContentHash(b)) => {
            assert(a =~= b);
        },
        (Discriminant::Sequential(a), Discriminant::ContentHash(b)) => {
            assert(first.seed().len() == 8 && second.seed().len() == 32);
        },
        (Discriminant::ContentHash(a), Discriminant::Sequential(b)) => {
            assert(first.seed().len() == 32 && second.seed().len() == 8);
        },
    }
}

/// The seeds of records and escrows cannot be mistaken for one another even
/// when they are run together, as they are when an address is derived from
/// them: if the bytes of two namespaces with their discriminants are the
/// same, the namespaces are the same and so are the discriminants. So a
/// record never shares its seeds with another record, nor with any escrow.
pub proof fn lemma_seeds_are_unambiguous(
    first_namespace: Seq<u8>,
    first: Discriminant,
    second_namespace: Seq<u8>,
    second: Discriminant,
)
    requires
        is_account_namespace(first_namespace),
        is_account_namespace(second_namespace),
        first_namespace + first.seed() == second_namespace + second.seed(),
    ensures
        first_namespace == second_namespace,
        first == second,
        address_seeds(first_namespace, first) == address_seeds(second_namespace, second),
{
    let left = first_namespace + first.seed();
    let right = second_namespace + second.seed();
    // The two namespaces differ in their eighth byte.
    assert(AVATAR_SEED@[7] == 118u8 && ESCROW_SEED@[7] == 101u8);
    assert(left[7] == first_namespace[7]);
    assert(right[7] == second_namespace[7]);
    assert(first_namespace == second_namespace);
    let n = first_namespace.len() as int;
    assert(first.seed() =~= left.subrange(n, left.len() as int));
    assert(second.seed() =~= right.subrange(n, right.len() as int));
    lemma_seed_tells_discriminant(first, second);
}

/// A sound record fits into the bytes set aside for it, whatever its content
/// reference: this is what the limit of 64 bytes is for.
pub proof fn lemma_record_fits(record: AvatarData)
    requires
        record.wf(),
    ensures
        record.stored_len() <= AvatarData::SPACE,
{
}

} // verus!
