//! A registry of mintable assets with escrowed fees.
//!
//! A creator registers a piece of content with a supply cap and a fee per
//! mint. Minters pay the fee into an escrow paired with the record until the
//! cap is reached, and the creator withdraws what has accrued. Every
//! operation goes through whole or leaves no trace.

pub mod address;
pub mod claim;
pub mod error;
pub mod host;
pub mod initialize;
pub mod laws;
pub mod mint;
pub mod profile;
pub mod pubkey;
pub mod state;

pub use address::{DerivedAddress, Discriminant};
pub use claim::{claim_fee, ClaimFee, EscrowAccount, Signer};
pub use error::CustomError;
pub use initialize::{initialize_avatar, InitializeAvatar, InitializeAvatarBumps};
pub use mint::{
    mint_nft, Creator, HostCall, MintAction, MintEvent, MintFailure, MintNft, MintStage,
    TokenMetadata,
};
pub use profile::{
    delete_profile, initialize_profile, update_profile, Clock, DeleteProfile, InitializeProfile,
    ProfileAccount, ProfileError, UpdateProfile, UserProfile,
};
pub use pubkey::Pubkey;
pub use state::{AvatarData, AvatarRegistry, Escrow, RecordState};
