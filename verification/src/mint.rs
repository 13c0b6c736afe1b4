use crate::error::CustomError;
use crate::host::system_transfer;
use crate::host::transfer;
use crate::pubkey::Pubkey;
use crate::state::AvatarData;
use crate::state::RecordState;
use anchor_lang::solana_program::instruction::Instruction;
use vstd::prelude::*;

verus! {

/// One beneficiary named in the metadata of a unit.
#[derive(Clone, Copy, Debug, PartialEq, Eq)]
pub struct Creator {
    pub address: Pubkey,
    /// Whether the beneficiary has confirmed the attribution.
    pub verified: bool,
    /// The beneficiary's share, in percent.
    pub share: u8,
}

/// What is attached to a newly issued unit.
#[derive(Clone, Debug, PartialEq, Eq)]
pub struct TokenMetadata {
    pub name: String,
    pub symbol: String,
    pub uri: String,
    pub seller_fee_basis_points: u16,
    /// The record's creator as the sole beneficiary, or no one where the
    /// record names no creator.
    pub creator: Option<Creator>,
}

/// The three things a mint asks of the host.
#[derive(Clone, Copy, Debug, PartialEq, Eq, Structural)]
pub enum HostCall {
    FeeTransfer,
    Issuance,
    MetadataAttachment,
}

/// Why a mint came to nothing.
#[derive(Clone, Copy, Debug, PartialEq, Eq, Structural)]
pub enum MintFailure {
    /// The core refused.
    Rejected(CustomError),
    /// The host failed at what it was asked; its own error is the caller's to
    /// hand on.
    Host(HostCall),
    /// The caller reported something that nothing had asked for.
    OutOfTurn,
}

/// What the caller reports to the mint.
#[derive(Clone, Copy, Debug, PartialEq, Eq, Structural)]
pub enum MintEvent {
    /// The mint is to begin.
    Begin,
    /// The host did what the last action asked.
    Succeeded,
    /// The host failed at what the last action asked.
    Failed,
}

/// How far a mint has come.
#[derive(Clone, Copy, Debug, PartialEq, Eq, Structural)]
pub enum MintStage {
    Start,
    /// The fee transfer is with the host.
    AwaitingFee,
    /// The issuance is with the host. `unclaimed` is what the record will be
    /// owed when the mint is through.
    AwaitingUnit { unclaimed: u64 },
    /// The metadata attachment is with the host.
    AwaitingMetadata { unclaimed: u64 },
    Complete,
    Aborted(MintFailure),
}

/// What the caller is to do next.
#[derive(Debug, PartialEq, Eq)]
pub enum MintAction {
    /// Move `lamports` of native value from `from` to `to`, by handing
    /// `instruction` to the host.
    TransferFee { from: Pubkey, to: Pubkey, lamports: u64, instruction: Instruction },
    /// Issue `amount` units of `mint` to `to`, on the word of `authority`.
    IssueUnit { mint: Pubkey, to: Pubkey, authority: Pubkey, amount: u64 },
    /// Attach `data` to `mint` at `metadata`.
    AttachMetadata {
        metadata: Pubkey,
        mint: Pubkey,
        authority: Pubkey,
        data: TokenMetadata,
        is_mutable: bool,
        update_authority_is_signer: bool,
    },
    /// The mint is through: store the record as it now stands.
    Complete,
    /// The mint came to nothing: undo what the host did for it.
    Abort(MintFailure),
}

impl MintAction {
    /// Which call to the host the action asks for, if any.
    pub open spec fn asks(self) -> Option<HostCall> {
        match self {
            MintAction::TransferFee { .. } => Some(HostCall::FeeTransfer),
            MintAction::IssueUnit { .. } => Some(HostCall::Issuance),
            MintAction::AttachMetadata { .. } => Some(HostCall::MetadataAttachment),
            MintAction::Complete | MintAction::Abort(_) => None,
        }
    }
}

/// The accounts of one mint, and how far it has come.
#[derive(Clone, Debug, PartialEq, Eq)]
pub struct MintNft {
    /// The record minted from. It changes at the last step only.
    pub avatar_data: AvatarData,
    /// The asset that the new unit belongs to.
    pub mint: Pubkey,
    /// Where the new unit goes.
    pub token_account: Pubkey,
    /// Where the unit's metadata goes.
    pub metadata_account: Pubkey,
    /// Who mints, pays the fee and receives the unit.
    pub payer: Pubkey,
    /// The escrow paired with the record.
    pub escrow: Pubkey,
    pub stage: MintStage,
}

impl MintNft {
    /// A mint of one unit of `avatar_data` that has not begun.
    pub fn new(
        avatar_data: AvatarData,
        mint: Pubkey,
        token_account: Pubkey,
        metadata_account: Pubkey,
        payer: Pubkey,
        escrow: Pubkey,
    ) -> (ctx: MintNft)
        ensures
            ctx == (MintNft {
                avatar_data,
                mint,
                token_account,
                metadata_account,
                payer,
                escrow,
                stage: MintStage::Start,
            }),
    {
        MintNft {
            avatar_data,
            mint,
            token_account,
            metadata_account,
            payer,
            escrow,
            stage: MintStage::Start,
        }
    }

    /// What holds at every stage of a mint that began from a sound record:
    /// the host is asked for something only while a unit is left, for the fee
    /// only where there is one, and the amount kept for the last step is what
    /// the record is owed after this mint.
    pub open spec fn wf(self) -> bool {
        &&& self.avatar_data.wf()
        &&& match self.stage {
            MintStage::AwaitingFee => {
                &&& self.avatar_data.has_headroom()
                &&& self.avatar_data.minting_fee_per_mint > 0
            },
            MintStage::AwaitingUnit { unclaimed } | MintStage::AwaitingMetadata { unclaimed } => {
                &&& self.avatar_data.has_headroom()
                &&& unclaimed == self.avatar_data.fees_after_mint()
            },
            _ => true,
        }
    }

    /// The mint moved to `stage`, its record untouched.
    pub open spec fn at(self, stage: MintStage) -> MintNft {
        MintNft { stage, ..self }
    }

    /// The mint given up for `failure`, its record untouched.
    pub open spec fn aborted(self, failure: MintFailure) -> (MintNft, MintAction) {
        (self.at(MintStage::Aborted(failure)), MintAction::Abort(failure))
    }

    /// The request to move exactly the fee from the payer to the escrow.
    pub open spec fn fee_transfer(self) -> MintAction {
        MintAction::TransferFee {
            from: self.payer,
            to: self.escrow,
            lamports: self.avatar_data.minting_fee_per_mint,
            instruction: system_transfer(
                self.payer,
                self.escrow,
                self.avatar_data.minting_fee_per_mint,
            ),
        }
    }

    /// The request to issue exactly one unit to the payer's holding account.
    pub open spec fn issuance(self) -> MintAction {
        MintAction::IssueUnit {
            mint: self.mint,
            to: self.token_account,
            authority: self.payer,
            amount: 1,
        }
    }

    /// Whom the metadata names: the record's creator with the whole share and
    /// unverified, or no one where the creator is the all-zero key.
    pub open spec fn attribution(self) -> Option<Creator> {
        if self.avatar_data.creator.is_default() {
            None
        } else {
            Some(Creator { address: self.avatar_data.creator, verified: false, share: 100 })
        }
    }

    /// The request to attach the caller's name, symbol and uri to the unit.
    pub open spec fn metadata_attachment(self, name: String, symbol: String, uri: String)
        -> MintAction {
        MintAction::AttachMetadata {
            metadata: self.metadata_account,
            mint: self.mint,
            authority: self.payer,
            data: TokenMetadata {
                name,
                symbol,
                uri,
                seller_fee_basis_points: 0,
                creator: self.attribution(),
            },
            is_mutable: false,
            update_authority_is_signer: true,
        }
    }

    /// The mint with its record brought up to date, at its end.
    pub open spec fn completed(self, unclaimed: u64) -> MintNft {
        MintNft {
            avatar_data: AvatarData {
                current_supply: (self.avatar_data.current_supply + 1) as u64,
                total_unclaimed_fees: unclaimed,
                ..self.avatar_data
            },
            stage: MintStage::Complete,
            ..self
        }
    }

    /// One step of a mint: the state it moves to and what it asks for.
    ///
    /// The order is fixed. The record is checked for a unit left to mint; the
    /// fee, where there is one, is moved and then counted; the unit is issued;
    /// its metadata is attached; and only then does the record change. A
    /// failure at any point ends the mint with the record as it was.
    pub open spec fn step(self, name: String, symbol: String, uri: String, event: MintEvent) -> (
        MintNft,
        MintAction,
    ) {
        let record = self.avatar_data;
        match self.stage {
            MintStage::Start => match event {
                MintEvent::Begin => if !record.has_headroom() {
                    self.aborted(MintFailure::Rejected(CustomError::MaxSupplyReached))
                } else if record.minting_fee_per_mint > 0 {
                    (self.at(MintStage::AwaitingFee), self.fee_transfer())
                } else {
                    (
                        self.at(MintStage::AwaitingUnit { unclaimed: record.total_unclaimed_fees }),
                        self.issuance(),
                    )
                },
                _ => self.aborted(MintFailure::OutOfTurn),
            },
            MintStage::AwaitingFee => match event {
                MintEvent::Succeeded => if record.total_unclaimed_fees
                    + record.minting_fee_per_mint > u64::MAX {
                    self.aborted(MintFailure::Rejected(CustomError::NumericalOverflow))
                } else {
                    (
                        self.at(
                            MintStage::AwaitingUnit {
                                unclaimed: (record.total_unclaimed_fees
                                    + record.minting_fee_per_mint) as u64,
                            },
                        ),
                        self.issuance(),
                    )
                },
                MintEvent::Failed => self.aborted(MintFailure::Host(HostCall::FeeTransfer)),
                MintEvent::Begin => self.aborted(MintFailure::OutOfTurn),
            },
            MintStage::AwaitingUnit { unclaimed } => match event {
                MintEvent::Succeeded => (
                    self.at(MintStage::AwaitingMetadata { unclaimed }),
                    self.metadata_attachment(name, symbol, uri),
                ),
                MintEvent::Failed => self.aborted(MintFailure::Host(HostCall::Issuance)),
                MintEvent::Begin => self.aborted(MintFailure::OutOfTurn),
            },
            MintStage::AwaitingMetadata { unclaimed } => match event {
                MintEvent::Succeeded => if record.current_supply == u64::MAX {
                    self.aborted(MintFailure::Rejected(CustomError::NumericalOverflow))
                } else {
                    (self.completed(unclaimed), MintAction::Complete)
                },
                MintEvent::Failed => self.aborted(MintFailure::Host(HostCall::MetadataAttachment)),
                MintEvent::Begin => self.aborted(MintFailure::OutOfTurn),
            },
            MintStage::Complete => (self, MintAction::Complete),
            MintStage::Aborted(failure) => (self, MintAction::Abort(failure)),
        }
    }

    fn abort(&mut self, failure: MintFailure) -> (action: MintAction)
        ensures
            (*final(self), action) == old(self).aborted(failure),
    {
        self.stage = MintStage::Aborted(failure);
        MintAction::Abort(failure)
    }

    fn issue_unit(&self) -> (action: MintAction)
        ensures
            action == self.issuance(),
    {
        MintAction::IssueUnit {
            mint: self.mint,
            to: self.token_account,
            authority: self.payer,
            amount: 1,
        }
    }

    fn attach_metadata(&self, name: &String, symbol: &String, uri: &String) -> (action: MintAction)
        ensures
            action == self.metadata_attachment(*name, *symbol, *uri),
    {
        let creator = if self.avatar_data.creator.is_unset() {
            None
        } else {
            Some(Creator { address: self.avatar_data.creator, verified: false, share: 100 })
        };
        MintAction::AttachMetadata {
            metadata: self.metadata_account,
            mint: self.mint,
            authority: self.payer,
            data: TokenMetadata {
                name: name.clone(),
                symbol: symbol.clone(),
                uri: uri.clone(),
                seller_fee_basis_points: 0,
                creator,
            },
            is_mutable: false,
            update_authority_is_signer: true,
        }
    }
}

/// Takes a mint one step on: hears what the caller reports, moves the mint
/// accordingly and says what the caller is to do next.
///
/// The caller begins with `MintEvent::Begin`, does what each action asks of
/// the host and reports how it went, until the action is `Complete` or
/// `Abort`. The record in `ctx` changes on the step that answers `Complete`
/// and on no other.
pub fn mint_nft(ctx: &mut MintNft, name: &String, symbol: &String, uri: &String, event: MintEvent)
    -> (action: MintAction)
    ensures
        (*final(ctx), action) == old(ctx).step(*name, *symbol, *uri, event),
        old(ctx).wf() ==> final(ctx).wf(),
{
    match ctx.stage {
        MintStage::Start => match event {
            MintEvent::Begin => {
                if ctx.avatar_data.state() == RecordState::Exhausted {
                    ctx.abort(MintFailure::Rejected(CustomError::MaxSupplyReached))
                } else if ctx.avatar_data.minting_fee_per_mint > 0 {
                    ctx.stage = MintStage::AwaitingFee;
                    MintAction::TransferFee {
                        from: ctx.payer,
                        to: ctx.escrow,
                        lamports: ctx.avatar_data.minting_fee_per_mint,
                        instruction: transfer(
                            &ctx.payer,
                            &ctx.escrow,
                            ctx.avatar_data.minting_fee_per_mint,
                        ),
                    }
                } else {
                    ctx.stage =
                    MintStage::AwaitingUnit { unclaimed: ctx.avatar_data.total_unclaimed_fees };
                    ctx.issue_unit()
                }
            },
            _ => ctx.abort(MintFailure::OutOfTurn),
        },
        MintStage::AwaitingFee => match event {
            MintEvent::Succeeded => {
                match ctx.avatar_data.total_unclaimed_fees.checked_add(
                    ctx.avatar_data.minting_fee_per_mint,
                ) {
                    Some(unclaimed) => {
                        ctx.stage = MintStage::AwaitingUnit { unclaimed };
                        ctx.issue_unit()
                    },
                    None => ctx.abort(MintFailure::Rejected(CustomError::NumericalOverflow)),
                }
            },
            MintEvent::Failed => ctx.abort(MintFailure::Host(HostCall::FeeTransfer)),
            MintEvent::Begin => ctx.abort(MintFailure::OutOfTurn),
        },
        MintStage::AwaitingUnit { unclaimed } => match event {
            MintEvent::Succeeded => {
                ctx.stage = MintStage::AwaitingMetadata { unclaimed };
                ctx.attach_metadata(name, symbol, uri)
            },
            MintEvent::Failed => ctx.abort(MintFailure::Host(HostCall::Issuance)),
            MintEvent::Begin => ctx.abort(MintFailure::OutOfTurn),
        },
        MintStage::AwaitingMetadata { unclaimed } => match event {
            MintEvent::Succeeded => {
                match ctx.avatar_data.current_supply.checked_add(1) {
                    Some(supply) => {
                        ctx.avatar_data.current_supply = supply;
                        ctx.avatar_data.total_unclaimed_fees = unclaimed;
                        ctx.stage = MintStage::Complete;
                        MintAction::Complete
                    },
                    None => ctx.abort(MintFailure::Rejected(CustomError::NumericalOverflow)),
                }
            },
            MintEvent::Failed => ctx.abort(MintFailure::Host(HostCall::MetadataAttachment)),
            MintEvent::Begin => ctx.abort(MintFailure::OutOfTurn),
        },
        MintStage::Complete => MintAction::Complete,
        MintStage::Aborted(failure) => MintAction::Abort(failure),
    }
}

} // verus!
