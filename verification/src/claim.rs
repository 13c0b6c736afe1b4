use crate::error::CustomError;
use crate::pubkey::Pubkey;
use crate::state::AvatarData;
use crate::state::Escrow;
use vstd::prelude::*;

verus! {

/// Someone who signed the operation: the identity that the host vouches for,
/// and the native value held at it.
#[derive(Clone, Copy, Debug, PartialEq, Eq)]
pub struct Signer {
    pub key: Pubkey,
    pub lamports: u64,
}

/// An escrow as the host holds it: its address, the native value at it, and
/// what it stores.
#[derive(Clone, Copy, Debug, PartialEq, Eq)]
pub struct EscrowAccount {
    pub key: Pubkey,
    pub lamports: u64,
    pub data: Escrow,
}

/// The accounts of one withdrawal of fees.
#[derive(Clone, Debug, PartialEq, Eq)]
pub struct ClaimFee {
    pub avatar_data: AvatarData,
    /// Who asks for the fees.
    pub creator: Signer,
    /// The escrow paired with the record.
    pub escrow: EscrowAccount,
}

impl ClaimFee {
    /// Why a withdrawal is refused, if it is. The checks come in this order:
    /// who asks, whether anything is owed, whether the escrow holds it, and
    /// whether the claimant's balance can take it.
    pub open spec fn refusal(self) -> Option<CustomError> {
        let fees = self.avatar_data.total_unclaimed_fees;
        if self.creator.key != self.avatar_data.creator {
            Some(CustomError::Unauthorized)
        } else if fees == 0 {
            Some(CustomError::NoFeesToClaim)
        } else if self.escrow.lamports < fees {
            Some(CustomError::InsufficientEscrowBalance)
        } else if self.creator.lamports + fees > u64::MAX {
            Some(CustomError::NumericalOverflow)
        } else {
            None
        }
    }

    /// The accounts after the whole of what is owed went from the escrow to
    /// the claimant.
    pub open spec fn paid_out(self) -> ClaimFee {
        let fees = self.avatar_data.total_unclaimed_fees;
        ClaimFee {
            avatar_data: self.avatar_data.claimed(),
            creator: Signer { lamports: (self.creator.lamports + fees) as u64, ..self.creator },
            escrow: EscrowAccount {
                lamports: (self.escrow.lamports - fees) as u64,
                ..self.escrow
            },
        }
    }

    /// What a withdrawal answers and what it leaves behind: the refusal and
    /// the accounts as they were, or success and the accounts paid out.
    pub open spec fn outcome(self) -> (Result<(), CustomError>, ClaimFee) {
        match self.refusal() {
            Some(e) => (Err(e), self),
            None => (Ok(()), self.paid_out()),
        }
    }
}

/// Withdraws everything the record is owed, from its escrow to its creator.
///
/// All of it or nothing: on success the record is owed nothing any more; on
/// refusal no balance and no field has changed.
pub fn claim_fee(ctx: &mut ClaimFee) -> (outcome: Result<(), CustomError>)
    ensures
        (outcome, *final(ctx)) == old(ctx).outcome(),
        old(ctx).avatar_data.wf() ==> final(ctx).avatar_data.wf(),
{
    if ctx.creator.key != ctx.avatar_data.creator {
        return Err(CustomError::Unauthorized);
    }
    let fees_to_claim = ctx.avatar_data.total_unclaimed_fees;
    if fees_to_claim == 0 {
        return Err(CustomError::NoFeesToClaim);
    }
    if ctx.escrow.lamports < fees_to_claim {
        return Err(CustomError::InsufficientEscrowBalance);
    }
    match ctx.creator.lamports.checked_add(fees_to_claim) {
        Some(balance) => {
            ctx.creator.lamports = balance;
            ctx.escrow.lamports = ctx.escrow.lamports - fees_to_claim;
            ctx.avatar_data.total_unclaimed_fees = 0;
            Ok(())
        },
        None => Err(CustomError::NumericalOverflow),
    }
}

} // verus!
