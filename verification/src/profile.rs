use crate::address::derived;
use crate::address::program_address;
use crate::address::try_find_program_address;
use crate::address::DerivedAddress;
use crate::claim::Signer;
use crate::pubkey::Pubkey;
use vstd::prelude::*;
use vstd::slice::slice_to_vec;

verus! {

/// Namespace of profile addresses: the bytes of `profile`.
pub const PROFILE_SEED: [u8; 7] = [112, 114, 111, 102, 105, 108, 101];

/// Why a profile operation is refused. A refused operation changes nothing.
#[derive(Clone, Copy, Debug, PartialEq, Eq, Structural)]
pub enum ProfileError {
    /// The owner has a profile already.
    ProfileAlreadyExists,
    /// There is no profile to delete.
    ProfileMissing,
    /// The signer is not the profile's owner.
    NotOwner,
    /// The owner's balance cannot take what the profile's account held.
    NumericalOverflow,
}

/// The host's clock, as the caller read it.
#[derive(Clone, Copy, Debug, PartialEq, Eq, Structural)]
pub struct Clock {
    pub unix_timestamp: i64,
}

/// The one profile of a user.
#[derive(Clone, Copy, Debug, PartialEq, Eq)]
pub struct UserProfile {
    pub owner: Pubkey,
    pub username: [u8; 32],
    pub description: [u8; 128],
    pub avatar_mint: Pubkey,
    pub created_at: i64,
}

impl UserProfile {
    /// Bytes set aside for a stored profile: a tag of eight bytes, then the
    /// five fields.
    pub const SIZE: usize = 8 + 32 + 32 + 128 + 32 + 8;

    /// The profile with each field replaced for which a new value is given.
    pub open spec fn updated(
        self,
        username: Option<[u8; 32]>,
        description: Option<[u8; 128]>,
        avatar_mint: Option<Pubkey>,
    ) -> UserProfile {
        UserProfile {
            username: match username {
                Some(v) => v,
                None => self.username,
            },
            description: match description {
                Some(v) => v,
                None => self.description,
            },
            avatar_mint: match avatar_mint {
                Some(pk) => pk,
                None => self.avatar_mint,
            },
            ..self
        }
    }
}

/// A profile as the host holds it: what it stores, and the native value that
/// was set aside for storing it.
#[derive(Clone, Copy, Debug, PartialEq, Eq)]
pub struct ProfileAccount {
    pub lamports: u64,
    pub data: UserProfile,
}

/// The address of the profile of `owner` under `program_id`.
pub open spec fn profile_address(owner: Pubkey, program_id: Pubkey) -> Option<DerivedAddress> {
    derived(program_address(seq![PROFILE_SEED@, owner.bytes@], program_id))
}

/// Derives the address at which the profile of `owner` is kept. `None` where
/// no address exists for it.
pub fn find_profile_address(owner: &Pubkey, program_id: &Pubkey) -> (found: Option<DerivedAddress>)
    ensures
        found == profile_address(*owner, *program_id),
{
    let mut seeds: Vec<Vec<u8>> = Vec::new();
    seeds.push(slice_to_vec(PROFILE_SEED.as_slice()));
    seeds.push(slice_to_vec(owner.bytes.as_slice()));
    assert(seeds@.map_values(|seed: Vec<u8>| seed@) =~= seq![PROFILE_SEED@, owner.bytes@]);
    match try_find_program_address(&seeds, program_id) {
        Some((address, bump)) => Some(DerivedAddress { address, bump }),
        None => None,
    }
}

/// The accounts of the creation of a profile.
#[derive(Clone, Copy, Debug, PartialEq, Eq)]
pub struct InitializeProfile {
    /// What the host holds at the address of the owner's profile: `None`
    /// while the owner has none.
    pub profile: Option<UserProfile>,
    pub owner: Pubkey,
    pub clock: Clock,
}

impl InitializeProfile {
    pub open spec fn outcome(
        self,
        username: [u8; 32],
        description: [u8; 128],
        avatar_mint: Pubkey,
    ) -> (Result<(), ProfileError>, InitializeProfile) {
        if self.profile is Some {
            (Err(ProfileError::ProfileAlreadyExists), self)
        } else {
            (
                Ok(()),
                InitializeProfile {
                    profile: Some(
                        UserProfile {
                            owner: self.owner,
                            username,
                            description,
                            avatar_mint,
                            created_at: self.clock.unix_timestamp,
                        },
                    ),
                    ..self
                },
            )
        }
    }
}

/// Creates the signer's profile, stamped with the time on the clock. Refused
/// if the signer has one already.
pub fn initialize_profile(
    ctx: &mut InitializeProfile,
    username: [u8; 32],
    description: [u8; 128],
    avatar_mint: Pubkey,
) -> (outcome: Result<(), ProfileError>)
    ensures
        (outcome, *final(ctx)) == old(ctx).outcome(username, description, avatar_mint),
{
    if ctx.profile.is_some() {
        return Err(ProfileError::ProfileAlreadyExists);
    }
    ctx.profile = Some(
        UserProfile {
            owner: ctx.owner,
            username,
            description,
            avatar_mint,
            created_at: ctx.clock.unix_timestamp,
        },
    );
    Ok(())
}

/// The accounts of a change to a profile.
#[derive(Clone, Copy, Debug, PartialEq, Eq)]
pub struct UpdateProfile {
    pub profile: UserProfile,
    /// Who asks for the change.
    pub owner: Pubkey,
}

impl UpdateProfile {
    pub open spec fn outcome(
        self,
        username: Option<[u8; 32]>,
        description: Option<[u8; 128]>,
        avatar_mint: Option<Pubkey>,
    ) -> (Result<(), ProfileError>, UpdateProfile) {
        if self.profile.owner != self.owner {
            (Err(ProfileError::NotOwner), self)
        } else {
            (
                Ok(()),
                UpdateProfile {
                    profile: self.profile.updated(username, description, avatar_mint),
                    ..self
                },
            )
        }
    }
}

/// Replaces those fields of the signer's profile for which a value is given,
/// and keeps the others. Owner and time of creation never change.
pub fn update_profile(
    ctx: &mut UpdateProfile,
    username: Option<[u8; 32]>,
    description: Option<[u8; 128]>,
    avatar_mint: Option<Pubkey>,
) -> (outcome: Result<(), ProfileError>)
    ensures
        (outcome, *final(ctx)) == old(ctx).outcome(username, description, avatar_mint),
{
    if ctx.profile.owner != ctx.owner {
        return Err(ProfileError::NotOwner);
    }
    if let Some(v) = username {
        ctx.profile.username = v;
    }
    if let Some(v) = description {
        ctx.profile.description = v;
    }
    if let Some(pk) = avatar_mint {
        ctx.profile.avatar_mint = pk;
    }
    Ok(())
}

/// The accounts of the deletion of a profile.
#[derive(Clone, Copy, Debug, PartialEq, Eq)]
pub struct DeleteProfile {
    /// The profile to delete: `None` where the host holds none.
    pub profile: Option<ProfileAccount>,
    /// Who asks for the deletion, and gets back what the account held.
    pub owner: Signer,
}

impl DeleteProfile {
    pub open spec fn outcome(self) -> (Result<(), ProfileError>, DeleteProfile) {
        match self.profile {
            None => (Err(ProfileError::ProfileMissing), self),
            Some(account) => if account.data.owner != self.owner.key {
                (Err(ProfileError::NotOwner), self)
            } else if self.owner.lamports + account.lamports > u64::MAX {
                (Err(ProfileError::NumericalOverflow), self)
            } else {
                (
                    Ok(()),
                    DeleteProfile {
                        profile: None,
                        owner: Signer {
                            lamports: (self.owner.lamports + account.lamports) as u64,
                            ..self.owner
                        },
                    },
                )
            },
        }
    }
}

/// Deletes the signer's profile and hands the native value of its account
/// back to the signer.
pub fn delete_profile(ctx: &mut DeleteProfile) -> (outcome: Result<(), ProfileError>)
    ensures
        (outcome, *final(ctx)) == old(ctx).outcome(),
{
    match ctx.profile {
        None => Err(ProfileError::ProfileMissing),
        Some(account) => {
            if account.data.owner != ctx.owner.key {
                return Err(ProfileError::NotOwner);
            }
            match ctx.owner.lamports.checked_add(account.lamports) {
                Some(balance) => {
                    ctx.owner.lamports = balance;
                    ctx.profile = None;
                    Ok(())
                },
                None => Err(ProfileError::NumericalOverflow),
            }
        },
    }
}

} // verus!
