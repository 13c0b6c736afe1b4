use crate::address::Discriminant;
use crate::error::CustomError;
use crate::pubkey::Pubkey;
use vstd::prelude::*;
use vstd::utf8::encode_utf8;

verus! {

/// Longest content reference, in bytes.
pub const MAX_IPFS_HASH_LEN: usize = 64;

/// What an escrow stores: the bump of its address. The fees it keeps are the
/// native value that the host holds at that address.
#[derive(Clone, Copy, Debug, PartialEq, Eq, Structural)]
pub struct Escrow {
    pub bump: u8,
}

/// The one counter of a deployment that issues record indices.
#[derive(Clone, Copy, Debug, PartialEq, Eq, Structural)]
pub struct AvatarRegistry {
    pub next_index: u64,
    pub bump: u8,
}

impl Escrow {
    /// Bytes set aside for a stored escrow: a tag of eight bytes and the bump.
    pub const SPACE: usize = 8 + 1;
}

impl AvatarRegistry {
    /// Bytes set aside for the stored registry: a tag of eight bytes, the
    /// counter and the bump.
    pub const SPACE: usize = 8 + 8 + 1;

    /// Hands out the current index and moves the counter one up, in one step.
    /// At the largest index nothing is handed out and the counter stays.
    pub fn allocate_index(&mut self) -> (issued: Result<u64, CustomError>)
        ensures
            match issued {
                Ok(index) => {
                    &&& index == old(self).next_index
                    &&& final(self).next_index == index + 1
                    &&& final(self).bump == old(self).bump
                },
                Err(e) => {
                    &&& e == CustomError::NumericalOverflow
                    &&& old(self).next_index == u64::MAX
                    &&& *final(self) == *old(self)
                },
            },
    {
        let index = self.next_index;
        match index.checked_add(1) {
            Some(next) => {
                self.next_index = next;
                Ok(index)
            },
            None => Err(CustomError::NumericalOverflow),
        }
    }
}

/// Whether a content reference has a length the registry accepts: at least one
/// byte and at most 64, counted in its UTF-8 encoding.
pub open spec fn valid_ipfs_hash(uri_ipfs_hash: Seq<char>) -> bool {
    0 < encode_utf8(uri_ipfs_hash).len() <= MAX_IPFS_HASH_LEN
}

/// Checks the length of a content reference.
pub fn check_ipfs_hash(uri_ipfs_hash: &str) -> (valid: bool)
    ensures
        valid == valid_ipfs_hash(uri_ipfs_hash@),
{
    let len = uri_ipfs_hash.as_bytes().len();
    len > 0 && len <= MAX_IPFS_HASH_LEN
}

/// Where a registered record stands between its registration and its last
/// unit.
#[derive(Clone, Copy, Debug, PartialEq, Eq, Structural)]
pub enum RecordState {
    /// Units are left: the record can be minted from.
    Active,
    /// The cap is reached: the record can only be withdrawn from.
    Exhausted,
}

/// The record of one registered asset.
#[derive(Clone, Debug, PartialEq, Eq)]
pub struct AvatarData {
    /// The content that the asset stands for.
    pub uri_ipfs_hash: String,
    /// Who registered it, and who alone may withdraw its fees.
    pub creator: Pubkey,
    /// How many units may be minted; `u64::MAX` stands for no limit.
    pub max_supply: u64,
    /// How many units have been minted.
    pub current_supply: u64,
    /// What one mint costs, in the host's native unit.
    pub minting_fee_per_mint: u64,
    /// The fees that minting has collected and the creator has not withdrawn.
    pub total_unclaimed_fees: u64,
    /// What the addresses of the record and of its escrow are derived from.
    pub discriminant: Discriminant,
    /// The bump of the record's address.
    pub bump: u8,
}

impl AvatarData {
    /// Bytes set aside for a stored record: a tag of eight bytes; the content
    /// reference behind a length of four bytes; the creator; the four
    /// counters; the index; the bump.
    pub const SPACE: usize = 8 + 68 + 32 + 8 + 8 + 8 + 8 + 8 + 1;

    /// Bytes that the record takes when stored. The index is stored only
    /// where the registry issued one: a digest is found again from the
    /// content reference.
    pub open spec fn stored_len(self) -> int {
        let index: int = match self.discriminant {
            Discriminant::Sequential(_) => 8,
            Discriminant::ContentHash(_) => 0,
        };
        8 + 4 + encode_utf8(self.uri_ipfs_hash@).len() + 32 + 8 + 8 + 8 + 8 + index + 1
    }

    /// What holds of every record that the registry keeps: it has not minted
    /// past its cap, and its content reference has an accepted length.
    pub open spec fn wf(self) -> bool {
        &&& self.current_supply <= self.max_supply
        &&& valid_ipfs_hash(self.uri_ipfs_hash@)
    }

    /// Whether a unit is left to mint.
    pub open spec fn has_headroom(self) -> bool {
        self.current_supply < self.max_supply
    }

    /// Where the record stands: active while a unit is left.
    pub open spec fn status(self) -> RecordState {
        if self.has_headroom() {
            RecordState::Active
        } else {
            RecordState::Exhausted
        }
    }

    /// Tells whether the record can still be minted from.
    pub fn state(&self) -> (state: RecordState)
        ensures
            state == self.status(),
    {
        if self.current_supply < self.max_supply {
            RecordState::Active
        } else {
            RecordState::Exhausted
        }
    }

    /// What the record is owed once one more fee is collected.
    pub open spec fn fees_after_mint(self) -> int {
        if self.minting_fee_per_mint > 0 {
            self.total_unclaimed_fees + self.minting_fee_per_mint
        } else {
            self.total_unclaimed_fees as int
        }
    }

    /// Whether a mint can run to its end: a unit is left, and the fee fits on
    /// top of what is owed already.
    pub open spec fn mintable(self) -> bool {
        &&& self.has_headroom()
        &&& self.fees_after_mint() <= u64::MAX
    }

    /// The record after one mint: one unit more, one fee more.
    pub open spec fn minted(self) -> AvatarData {
        AvatarData {
            current_supply: (self.current_supply + 1) as u64,
            total_unclaimed_fees: self.fees_after_mint() as u64,
            ..self
        }
    }

    /// The record after its fees were withdrawn.
    pub open spec fn claimed(self) -> AvatarData {
        AvatarData { total_unclaimed_fees: 0, ..self }
    }
}

} // verus!
