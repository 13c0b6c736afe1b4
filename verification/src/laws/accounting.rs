//! Laws of the fees: what a withdrawal moves, who may withdraw, and what a
//! record is owed after mints and withdrawals in any order.

use crate::claim::ClaimFee;
use crate::claim::EscrowAccount;
use crate::claim::Signer;
use crate::error::CustomError;
use crate::laws::minting::after_events;
use crate::laws::minting::lemma_mint_changes_record_once;
use crate::laws::minting::lemma_supply_within_cap;
use crate::mint::MintEvent;
use crate::mint::MintNft;
use crate::mint::MintStage;
use crate::state::AvatarData;
use vstd::prelude::*;

verus! {

/// What the escrow holds covers what the record is owed.
pub open spec fn solvent(record: AvatarData, escrowed: int) -> bool {
    record.total_unclaimed_fees <= escrowed
}

/// One operation on a record after its registration.
pub enum Operation {
    /// A mint, with what the caller reported in it.
    Mint { events: Seq<MintEvent> },
    /// A withdrawal, with who asked for it and the escrow as it stood.
    Claim { creator: Signer, escrow: EscrowAccount },
}

/// A record together with the two sums that account for what it is owed.
pub struct Books {
    pub record: AvatarData,
    /// The fees of all mints that ran to their end.
    pub collected: int,
    /// All that was withdrawn.
    pub claimed: int,
}

/// The books after `operation`. A mint that does not complete and a
/// withdrawal that is refused leave them as they were.
pub open spec fn after_operation(
    books: Books,
    accounts: MintNft,
    name: String,
    symbol: String,
    uri: String,
    operation: Operation,
) -> Books {
    match operation {
        Operation::Mint { events } => {
            let start = MintNft { avatar_data: books.record, stage: MintStage::Start, ..accounts };
            let end = after_events(start, name, symbol, uri, events);
            Books {
                record: end.avatar_data,
                collected: if end.stage == MintStage::Complete {
                    books.collected + books.record.minting_fee_per_mint
                } else {
                    books.collected
                },
                claimed: books.claimed,
            }
        },
        Operation::Claim { creator, escrow } => {
            let claim = ClaimFee { avatar_data: books.record, creator, escrow };
            Books {
                record: claim.outcome().1.avatar_data,
                collected: books.collected,
                claimed: if claim.outcome().0 is Ok {
                    books.claimed + books.record.total_unclaimed_fees
                } else {
                    books.claimed
                },
            }
        },
    }
}

/// The books after `operations`, one after the other.
pub open spec fn after_operations(
    books: Books,
    accounts: MintNft,
    name: String,
    symbol: String,
    uri: String,
    operations: Seq<Operation>,
) -> Books
    decreases operations.len(),
{
    if operations.len() == 0 {
        books
    } else {
        after_operations(
            after_operation(books, accounts, name, symbol, uri, operations.first()),
            accounts,
            name,
            symbol,
            uri,
            operations.drop_first(),
        )
    }
}

/// What every operation keeps of a record: it is sound, it is owed what was
/// collected and not yet withdrawn, and its content, creator, cap, fee,
/// discriminant and bump are those it was registered with.
pub open spec fn balanced(books: Books, registered: AvatarData) -> bool {
    &&& books.record.wf()
    &&& books.record.total_unclaimed_fees == books.collected - books.claimed
    &&& books.record == (AvatarData {
        current_supply: books.record.current_supply,
        total_unclaimed_fees: books.record.total_unclaimed_fees,
        ..registered
    })
}

/// A withdrawal that goes through moves exactly what was owed: the escrow
/// has that much less, the creator that much more, supply is untouched and
/// the record is owed nothing. A second withdrawal right after is refused
/// with `NoFeesToClaim` and changes nothing.
pub proof fn lemma_claim_settles(ctx: ClaimFee)
    requires
        ctx.outcome().0 is Ok,
    ensures
        ({
            let paid = ctx.outcome().1;
            let fees = ctx.avatar_data.total_unclaimed_fees;
            &&& paid.avatar_data.total_unclaimed_fees == 0
            &&& paid.creator.lamports == ctx.creator.lamports + fees
            &&& paid.escrow.lamports == ctx.escrow.lamports - fees
            &&& paid.avatar_data.current_supply == ctx.avatar_data.current_supply
            &&& paid.outcome() == (Err::<(), CustomError>(CustomError::NoFeesToClaim), paid)
        }),
{
}

/// No one but the creator withdraws: for any other identity the withdrawal
/// is refused with `Unauthorized`, whatever the record is owed and whatever
/// the escrow holds, and neither the record nor a balance changes.
pub proof fn lemma_only_creator_claims(ctx: ClaimFee)
    requires
        ctx.creator.key != ctx.avatar_data.creator,
    ensures
        ctx.outcome() == (Err::<(), CustomError>(CustomError::Unauthorized), ctx),
{
}

/// An escrow that covers what its record is owed goes on covering it: a
/// completed mint adds the same fee to both, and a withdrawal takes out what
/// was owed and leaves the record owed nothing. So a withdrawal from such an
/// escrow is never refused for want of balance.
pub proof fn lemma_escrow_stays_solvent(record: AvatarData, escrowed: u64, ctx: ClaimFee)
    requires
        solvent(record, escrowed as int),
        solvent(ctx.avatar_data, ctx.escrow.lamports as int),
    ensures
        record.mintable() ==> solvent(
            record.minted(),
            escrowed + (record.fees_after_mint() - record.total_unclaimed_fees),
        ),
        ctx.outcome().0 != Err::<(), CustomError>(CustomError::InsufficientEscrowBalance),
        solvent(ctx.outcome().1.avatar_data, ctx.outcome().1.escrow.lamports as int),
{
}

/// Mints and withdrawals in any number and order, however each of them goes,
/// keep the books of a record: it never passes its cap, its supply never
/// falls, it is owed exactly what its completed mints collected less what was
/// withdrawn, and nothing else of it ever changes.
pub proof fn lemma_books_stay_balanced(
    books: Books,
    registered: AvatarData,
    accounts: MintNft,
    name: String,
    symbol: String,
    uri: String,
    operations: Seq<Operation>,
)
    requires
        balanced(books, registered),
    ensures
        balanced(after_operations(books, accounts, name, symbol, uri, operations), registered),
        after_operations(books, accounts, name, symbol, uri, operations).record.current_supply
            >= books.record.current_supply,
        after_operations(books, accounts, name, symbol, uri, operations).record.current_supply
            <= registered.max_supply,
    decreases operations.len(),
{
    if operations.len() > 0 {
        let next = after_operation(books, accounts, name, symbol, uri, operations.first());
        match operations.first() {
            Operation::Mint { events } => {
                let start = MintNft {
                    avatar_data: books.record,
                    stage: MintStage::Start,
                    ..accounts
                };
                lemma_mint_changes_record_once(start, name, symbol, uri, events);
                lemma_supply_within_cap(start, name, symbol, uri, events);
            },
            Operation::Claim { creator, escrow } => {},
        }
        lemma_books_stay_balanced(
            next,
            registered,
            accounts,
            name,
            symbol,
            uri,
            operations.drop_first(),
        );
    }
}

} // verus!
