use crate::address::content_discriminant;
use crate::address::content_hash;
use crate::address::escrow_address;
use crate::address::find_escrow_address;
use crate::address::find_record_address;
use crate::address::record_address;
use crate::address::Discriminant;
use crate::error::CustomError;
use crate::pubkey::Pubkey;
use crate::state::check_ipfs_hash;
use crate::state::valid_ipfs_hash;
use crate::state::AvatarData;
use crate::state::AvatarRegistry;
use crate::state::Escrow;
use vstd::prelude::*;

verus! {

/// The bumps of the two addresses that a registration fills.
#[derive(Clone, Copy, Debug, PartialEq, Eq, Structural)]
pub struct InitializeAvatarBumps {
    pub avatar_data: u8,
    pub escrow: u8,
}

/// The bumps of the record and escrow addresses of `discriminant`, where both
/// addresses exist.
pub open spec fn bumps_of(discriminant: Discriminant, program_id: Pubkey) -> Option<
    InitializeAvatarBumps,
> {
    match (record_address(discriminant, program_id), escrow_address(discriminant, program_id)) {
        (Some(record), Some(escrow)) => Some(
            InitializeAvatarBumps { avatar_data: record.bump, escrow: escrow.bump },
        ),
        _ => None,
    }
}

impl InitializeAvatarBumps {
    /// Derives the addresses of the record and of its escrow from one
    /// discriminant, and keeps their bumps. `None` where either address does
    /// not exist.
    pub fn find(discriminant: &Discriminant, program_id: &Pubkey) -> (bumps: Option<
        InitializeAvatarBumps,
    >)
        ensures
            bumps == bumps_of(*discriminant, *program_id),
    {
        match find_record_address(discriminant, program_id) {
            Some(record) => match find_escrow_address(discriminant, program_id) {
                Some(escrow) => Some(
                    InitializeAvatarBumps { avatar_data: record.bump, escrow: escrow.bump },
                ),
                None => None,
            },
            None => None,
        }
    }
}

/// The accounts of one registration.
#[derive(Clone, Debug, PartialEq, Eq)]
pub struct InitializeAvatar {
    /// The counter that issues indices. `None` in a deployment that addresses
    /// records by their content.
    pub registry: Option<AvatarRegistry>,
    /// What the host holds at the address of the new record: `None` while the
    /// address is free.
    pub avatar_data: Option<AvatarData>,
    /// Who registers, and becomes the record's creator.
    pub payer: Pubkey,
    /// What the host holds at the address of the new escrow: `None` while the
    /// address is free.
    pub escrow: Option<Escrow>,
    pub bumps: InitializeAvatarBumps,
}

impl InitializeAvatar {
    /// The discriminant that a registration of `uri_ipfs_hash` gets: the
    /// registry's next index, or without a registry the digest of the content
    /// reference.
    pub open spec fn discriminant_for(self, uri_ipfs_hash: Seq<char>) -> Discriminant {
        match self.registry {
            Some(registry) => Discriminant::Sequential(registry.next_index),
            None => content_hash(uri_ipfs_hash),
        }
    }

    /// Why a registration is refused, if it is. An address in use is found
    /// first, then an exhausted registry, then a content reference of the
    /// wrong length. That the cap is zero is no reason: such a record is
    /// kept, and can never be minted from.
    pub open spec fn refusal(self, uri_ipfs_hash: Seq<char>) -> Option<CustomError> {
        if self.avatar_data is Some || self.escrow is Some {
            Some(CustomError::RecordAlreadyExists)
        } else if self.registry matches Some(registry) && registry.next_index == u64::MAX {
            Some(CustomError::NumericalOverflow)
        } else if !valid_ipfs_hash(uri_ipfs_hash) {
            Some(CustomError::InvalidIpfsHashLength)
        } else {
            None
        }
    }

    /// The record that a registration creates: nothing minted, nothing owed.
    pub open spec fn new_record(
        self,
        uri_ipfs_hash: String,
        max_supply: u64,
        minting_fee_per_mint: u64,
    ) -> AvatarData {
        AvatarData {
            uri_ipfs_hash,
            creator: self.payer,
            max_supply,
            current_supply: 0,
            minting_fee_per_mint,
            total_unclaimed_fees: 0,
            discriminant: self.discriminant_for(uri_ipfs_hash@),
            bump: self.bumps.avatar_data,
        }
    }

    /// The accounts after a registration: record and escrow in place, and the
    /// registry, where there is one, moved one up.
    pub open spec fn registered(
        self,
        uri_ipfs_hash: String,
        max_supply: u64,
        minting_fee_per_mint: u64,
    ) -> InitializeAvatar {
        InitializeAvatar {
            registry: match self.registry {
                Some(registry) => Some(
                    AvatarRegistry { next_index: (registry.next_index + 1) as u64, ..registry },
                ),
                None => None,
            },
            avatar_data: Some(self.new_record(uri_ipfs_hash, max_supply, minting_fee_per_mint)),
            escrow: Some(Escrow { bump: self.bumps.escrow }),
            ..self
        }
    }

    /// What a registration answers and what it leaves behind: the refusal and
    /// the accounts as they were, or success and the accounts filled.
    pub open spec fn outcome(
        self,
        uri_ipfs_hash: String,
        max_supply: u64,
        minting_fee_per_mint: u64,
    ) -> (Result<(), CustomError>, InitializeAvatar) {
        match self.refusal(uri_ipfs_hash@) {
            Some(e) => (Err(e), self),
            None => (Ok(()), self.registered(uri_ipfs_hash, max_supply, minting_fee_per_mint)),
        }
    }

    /// Computes the discriminant that a registration of `uri_ipfs_hash` gets.
    pub fn next_discriminant(&self, uri_ipfs_hash: &str) -> (discriminant: Discriminant)
        ensures
            discriminant == self.discriminant_for(uri_ipfs_hash@),
    {
        match &self.registry {
            Some(registry) => Discriminant::Sequential(registry.next_index),
            None => content_discriminant(uri_ipfs_hash),
        }
    }
}

/// Registers an asset: creates its record and the escrow paired with it, both
/// or neither.
///
/// On refusal nothing in `ctx` has changed.
pub fn initialize_avatar(
    ctx: &mut InitializeAvatar,
    uri_ipfs_hash: String,
    max_supply: u64,
    minting_fee_per_mint: u64,
) -> (outcome: Result<(), CustomError>)
    ensures
        (outcome, *final(ctx)) == old(ctx).outcome(uri_ipfs_hash, max_supply, minting_fee_per_mint),
        outcome is Ok ==> final(ctx).avatar_data is Some && final(ctx).avatar_data->0.wf(),
{
    if ctx.avatar_data.is_some() || ctx.escrow.is_some() {
        return Err(CustomError::RecordAlreadyExists);
    }
    let registry_before = ctx.registry;
    let issued = match &mut ctx.registry {
        Some(registry) => match registry.allocate_index() {
            Ok(index) => Some(index),
            Err(e) => {
                return Err(e);
            },
        },
        None => None,
    };
    if !check_ipfs_hash(uri_ipfs_hash.as_str()) {
        // The index that was taken goes back: a refusal leaves no trace.
        ctx.registry = registry_before;
        return Err(CustomError::InvalidIpfsHashLength);
    }
    let discriminant = match issued {
        Some(index) => Discriminant::Sequential(index),
        None => content_discriminant(uri_ipfs_hash.as_str()),
    };
    ctx.avatar_data = Some(
        AvatarData {
            uri_ipfs_hash,
            creator: ctx.payer,
            max_supply,
            current_supply: 0,
            minting_fee_per_mint,
            total_unclaimed_fees: 0,
            discriminant,
            bump: ctx.bumps.avatar_data,
        },
    );
    ctx.escrow = Some(Escrow { bump: ctx.bumps.escrow });
    Ok(())
}

} // verus!
