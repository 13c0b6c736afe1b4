//! Laws of minting: what holds of one mint whatever the caller reports, and
//! of mints one after another.

use crate::error::CustomError;
use crate::mint::HostCall;
use crate::mint::MintAction;
use crate::mint::MintEvent;
use crate::mint::MintFailure;
use crate::mint::MintNft;
use crate::mint::MintStage;
use crate::state::AvatarData;
use vstd::prelude::*;

verus! {

/// The state of a mint after the caller reported `events`, one after the other.
pub open spec fn after_events(
    ctx: MintNft,
    name: String,
    symbol: String,
    uri: String,
    events: Seq<MintEvent>,
) -> MintNft
    decreases events.len(),
{
    if events.len() == 0 {
        ctx
    } else {
        after_events(
            ctx.step(name, symbol, uri, events.first()).0,
            name,
            symbol,
            uri,
            events.drop_first(),
        )
    }
}

/// What the mint asked for in answer to each of `events`.
pub open spec fn actions_of(
    ctx: MintNft,
    name: String,
    symbol: String,
    uri: String,
    events: Seq<MintEvent>,
) -> Seq<MintAction>
    decreases events.len(),
{
    if events.len() == 0 {
        Seq::empty()
    } else {
        seq![ctx.step(name, symbol, uri, events.first()).1] + actions_of(
            ctx.step(name, symbol, uri, events.first()).0,
            name,
            symbol,
            uri,
            events.drop_first(),
        )
    }
}

/// How often `actions` ask the host for `call`.
pub open spec fn times_asked(actions: Seq<MintAction>, call: HostCall) -> nat
    decreases actions.len(),
{
    if actions.len() == 0 {
        0
    } else {
        let here: nat = if actions.first().asks() == Some(call) {
            1
        } else {
            0
        };
        here + times_asked(actions.drop_first(), call)
    }
}

/// How often a mint that stands at `ctx` will yet ask for `call` if it runs
/// to its end.
pub open spec fn yet_to_ask(ctx: MintNft, call: HostCall) -> nat {
    match (ctx.stage, call) {
        (MintStage::Start, HostCall::FeeTransfer) => if ctx.avatar_data.minting_fee_per_mint > 0 {
            1
        } else {
            0
        },
        (MintStage::Start, _) => 1,
        (MintStage::AwaitingFee, HostCall::FeeTransfer) => 0,
        (MintStage::AwaitingFee, _) => 1,
        (MintStage::AwaitingUnit { .. }, HostCall::MetadataAttachment) => 1,
        _ => 0,
    }
}

/// What the caller reports in a mint in which the host does all it is asked:
/// the beginning, then one success for each request. A record without a fee
/// has one request fewer.
pub open spec fn smooth_events(record: AvatarData) -> Seq<MintEvent> {
    if record.minting_fee_per_mint > 0 {
        seq![MintEvent::Begin, MintEvent::Succeeded, MintEvent::Succeeded, MintEvent::Succeeded]
    } else {
        seq![MintEvent::Begin, MintEvent::Succeeded, MintEvent::Succeeded]
    }
}

/// `k` mints of `record` in each of which the host does all it is asked.
pub open spec fn smooth_runs(record: AvatarData, k: nat) -> Seq<Seq<MintEvent>> {
    Seq::new(k, |i: int| smooth_events(record))
}

/// The record after one mint after another, each begun on the record that
/// the one before left, with `runs` holding what the caller reported in each.
pub open spec fn after_runs(
    ctx: MintNft,
    name: String,
    symbol: String,
    uri: String,
    runs: Seq<Seq<MintEvent>>,
) -> AvatarData
    decreases runs.len(),
{
    if runs.len() == 0 {
        ctx.avatar_data
    } else {
        let end = after_events(ctx.at(MintStage::Start), name, symbol, uri, runs.first());
        after_runs(end, name, symbol, uri, runs.drop_first())
    }
}

/// Whether every one of `runs` ran to its end, each begun on the record that
/// the one before left.
pub open spec fn all_complete(
    ctx: MintNft,
    name: String,
    symbol: String,
    uri: String,
    runs: Seq<Seq<MintEvent>>,
) -> bool
    decreases runs.len(),
{
    if runs.len() == 0 {
        true
    } else {
        let end = after_events(ctx.at(MintStage::Start), name, symbol, uri, runs.first());
        end.stage == MintStage::Complete && all_complete(end, name, symbol, uri, runs.drop_first())
    }
}

/// How a mint that began at `origin` stands to it: until the end the record
/// is `origin` itself, at the end it is `origin` minted once, and the host is
/// asked for a unit only after the fee, where there is one, was counted.
pub open spec fn follows(ctx: MintNft, origin: AvatarData) -> bool {
    match ctx.stage {
        MintStage::Start | MintStage::Aborted(_) => ctx.avatar_data == origin,
        MintStage::AwaitingFee => {
            &&& ctx.avatar_data == origin
            &&& origin.has_headroom()
            &&& origin.minting_fee_per_mint > 0
        },
        MintStage::AwaitingUnit { unclaimed } | MintStage::AwaitingMetadata { unclaimed } => {
            &&& ctx.avatar_data == origin
            &&& origin.has_headroom()
            &&& unclaimed == origin.fees_after_mint()
        },
        MintStage::Complete => origin.mintable() && ctx.avatar_data == origin.minted(),
    }
}

/// `follows` holds after every step if it held before.
pub proof fn lemma_follows_is_kept(
    ctx: MintNft,
    origin: AvatarData,
    name: String,
    symbol: String,
    uri: String,
    events: Seq<MintEvent>,
)
    requires
        follows(ctx, origin),
    ensures
        follows(after_events(ctx, name, symbol, uri, events), origin),
    decreases events.len(),
{
    if events.len() > 0 {
        let next = ctx.step(name, symbol, uri, events.first()).0;
        lemma_follows_is_kept(next, origin, name, symbol, uri, events.drop_first());
    }
}

/// Whatever the caller reports, and in whatever order, a mint changes its
/// record at most once and only by completing: at every moment the record is
/// the one the mint began with, or, once the mint is complete, that record
/// with one unit and one fee more.
pub proof fn lemma_mint_changes_record_once(
    ctx: MintNft,
    name: String,
    symbol: String,
    uri: String,
    events: Seq<MintEvent>,
)
    requires
        ctx.stage == MintStage::Start,
    ensures
        follows(after_events(ctx, name, symbol, uri, events), ctx.avatar_data),
{
    lemma_follows_is_kept(ctx, ctx.avatar_data, name, symbol, uri, events);
}

/// No sequence of steps takes a mint of a sound record past the cap: a mint
/// that is sound stays sound, so `current_supply <= max_supply` throughout,
/// and the cap itself never moves.
pub proof fn lemma_supply_within_cap(
    ctx: MintNft,
    name: String,
    symbol: String,
    uri: String,
    events: Seq<MintEvent>,
)
    requires
        ctx.wf(),
    ensures
        after_events(ctx, name, symbol, uri, events).wf(),
        after_events(ctx, name, symbol, uri, events).avatar_data.current_supply
            <= ctx.avatar_data.max_supply,
        after_events(ctx, name, symbol, uri, events).avatar_data.max_supply
            == ctx.avatar_data.max_supply,
    decreases events.len(),
{
    if events.len() > 0 {
        let next = ctx.step(name, symbol, uri, events.first()).0;
        lemma_supply_within_cap(next, name, symbol, uri, events.drop_first());
    }
}

/// No sequence of mints, however each of them goes, takes a sound record
/// past its cap, moves its cap, or lowers its supply.
pub proof fn lemma_supply_within_cap_over_mints(
    ctx: MintNft,
    name: String,
    symbol: String,
    uri: String,
    runs: Seq<Seq<MintEvent>>,
)
    requires
        ctx.avatar_data.wf(),
    ensures
        after_runs(ctx, name, symbol, uri, runs).wf(),
        after_runs(ctx, name, symbol, uri, runs).current_supply <= ctx.avatar_data.max_supply,
        after_runs(ctx, name, symbol, uri, runs).max_supply == ctx.avatar_data.max_supply,
        after_runs(ctx, name, symbol, uri, runs).current_supply >= ctx.avatar_data.current_supply,
    decreases runs.len(),
{
    if runs.len() > 0 {
        let start = ctx.at(MintStage::Start);
        let end = after_events(start, name, symbol, uri, runs.first());
        lemma_supply_within_cap(start, name, symbol, uri, runs.first());
        lemma_mint_changes_record_once(start, name, symbol, uri, runs.first());
        lemma_supply_within_cap_over_mints(end, name, symbol, uri, runs.drop_first());
    }
}

/// A mint that was given up stays given up: whatever is reported afterwards,
/// its record does not change and every answer is the same `Abort`.
pub proof fn lemma_abort_is_final(
    ctx: MintNft,
    failure: MintFailure,
    name: String,
    symbol: String,
    uri: String,
    events: Seq<MintEvent>,
)
    requires
        ctx.stage == MintStage::Aborted(failure),
    ensures
        after_events(ctx, name, symbol, uri, events) == ctx,
        actions_of(ctx, name, symbol, uri, events).len() == events.len(),
        forall|i: int|
            0 <= i < events.len() ==> actions_of(ctx, name, symbol, uri, events)[i]
                == MintAction::Abort(failure),
    decreases events.len(),
{
    if events.len() > 0 {
        lemma_abort_is_final(ctx, failure, name, symbol, uri, events.drop_first());
        let rest = actions_of(ctx, name, symbol, uri, events.drop_first());
        assert forall|i: int| 0 <= i < events.len() implies actions_of(
            ctx,
            name,
            symbol,
            uri,
            events,
        )[i] == MintAction::Abort(failure) by {
            if i > 0 {
                assert(rest[i - 1] == MintAction::Abort(failure));
            }
        }
    }
}

/// A mint of a record that has no unit left is refused at its first step with
/// `MaxSupplyReached`, asks nothing of the host, and leaves the record as it
/// was whatever is reported afterwards.
pub proof fn lemma_exhausted_record_refuses(
    ctx: MintNft,
    name: String,
    symbol: String,
    uri: String,
    later: Seq<MintEvent>,
)
    requires
        ctx.stage == MintStage::Start,
        ctx.avatar_data.current_supply >= ctx.avatar_data.max_supply,
    ensures
        ctx.step(name, symbol, uri, MintEvent::Begin) == ctx.aborted(
            MintFailure::Rejected(CustomError::MaxSupplyReached),
        ),
        after_events(ctx, name, symbol, uri, seq![MintEvent::Begin] + later).avatar_data
            == ctx.avatar_data,
        after_events(ctx, name, symbol, uri, seq![MintEvent::Begin] + later).stage
            == MintStage::Aborted(MintFailure::Rejected(CustomError::MaxSupplyReached)),
{
    let failure = MintFailure::Rejected(CustomError::MaxSupplyReached);
    let events = seq![MintEvent::Begin] + later;
    assert(events.first() == MintEvent::Begin);
    assert(events.drop_first() =~= later);
    lemma_abort_is_final(ctx.at(MintStage::Aborted(failure)), failure, name, symbol, uri, later);
}

/// A mint asks the host for each thing at most once, whatever the caller
/// reports: at most one fee is moved, at most one unit issued, at most one
/// metadata attached. A mint that completes has asked for each exactly
/// once, but for the fee transfer, which it asked for once where the record
/// has a fee and never where it has none.
pub proof fn lemma_each_asked_once(
    ctx: MintNft,
    name: String,
    symbol: String,
    uri: String,
    events: Seq<MintEvent>,
    call: HostCall,
)
    ensures
        times_asked(actions_of(ctx, name, symbol, uri, events), call) <= yet_to_ask(ctx, call),
        yet_to_ask(ctx, call) <= 1,
        after_events(ctx, name, symbol, uri, events).stage == MintStage::Complete ==> times_asked(
            actions_of(ctx, name, symbol, uri, events),
            call,
        ) == yet_to_ask(ctx, call),
    decreases events.len(),
{
    if events.len() > 0 {
        let (next, action) = ctx.step(name, symbol, uri, events.first());
        let rest = actions_of(next, name, symbol, uri, events.drop_first());
        let all = actions_of(ctx, name, symbol, uri, events);
        lemma_each_asked_once(next, name, symbol, uri, events.drop_first(), call);
        assert(all.first() == action);
        assert(all.drop_first() =~= rest);
        if next.stage is Aborted {
            lemma_abort_is_final(
                next,
                next.stage->Aborted_0,
                name,
                symbol,
                uri,
                events.drop_first(),
            );
        }
    }
}

/// A mint whose fee transfer fails comes to nothing: the record keeps its
/// supply and its fees, and the host is never asked to issue a unit, whatever
/// is reported after the failure.
pub proof fn lemma_failed_transfer_ends_mint(
    ctx: MintNft,
    name: String,
    symbol: String,
    uri: String,
    later: Seq<MintEvent>,
)
    requires
        ctx.stage == MintStage::AwaitingFee,
    ensures
        after_events(ctx, name, symbol, uri, seq![MintEvent::Failed] + later).avatar_data
            == ctx.avatar_data,
        forall|i: int|
            0 <= i < later.len() + 1 ==> actions_of(
                ctx,
                name,
                symbol,
                uri,
                seq![MintEvent::Failed] + later,
            )[i] == MintAction::Abort(MintFailure::Host(HostCall::FeeTransfer)),
        times_asked(
            actions_of(ctx, name, symbol, uri, seq![MintEvent::Failed] + later),
            HostCall::Issuance,
        ) == 0,
{
    let failure = MintFailure::Host(HostCall::FeeTransfer);
    let events = seq![MintEvent::Failed] + later;
    let given_up = ctx.at(MintStage::Aborted(failure));
    assert(events.first() == MintEvent::Failed);
    assert(events.drop_first() =~= later);
    lemma_abort_is_final(given_up, failure, name, symbol, uri, later);
    let rest = actions_of(given_up, name, symbol, uri, later);
    assert forall|i: int| 0 <= i < later.len() + 1 implies actions_of(
        ctx,
        name,
        symbol,
        uri,
        events,
    )[i] == MintAction::Abort(failure) by {
        if i > 0 {
            assert(rest[i - 1] == MintAction::Abort(failure));
        }
    }
    lemma_each_asked_once(given_up, name, symbol, uri, later, HostCall::Issuance);
    assert(actions_of(ctx, name, symbol, uri, events).drop_first() =~= rest);
}

/// A mint in which the host does all it is asked ends complete, with one
/// unit and one fee more on the record, exactly when a unit was left and the
/// fee fitted; otherwise it ends given up with the record as it was.
pub proof fn lemma_smooth_mint(ctx: MintNft, name: String, symbol: String, uri: String)
    requires
        ctx.stage == MintStage::Start,
    ensures
        ({
            let end = after_events(ctx, name, symbol, uri, smooth_events(ctx.avatar_data));
            if ctx.avatar_data.mintable() {
                end.stage == MintStage::Complete && end.avatar_data == ctx.avatar_data.minted()
            } else {
                end.stage is Aborted && end.avatar_data == ctx.avatar_data
            }
        }),
{
    let events = smooth_events(ctx.avatar_data);
    let s1 = ctx.step(name, symbol, uri, events[0]).0;
    let e1 = events.drop_first();
    let s2 = s1.step(name, symbol, uri, e1[0]).0;
    let e2 = e1.drop_first();
    let s3 = s2.step(name, symbol, uri, e2[0]).0;
    let e3 = e2.drop_first();
    reveal_with_fuel(after_events, 5);
    if ctx.avatar_data.minting_fee_per_mint > 0 {
        let s4 = s3.step(name, symbol, uri, e3[0]).0;
        assert(e3.drop_first().len() == 0);
        assert(after_events(ctx, name, symbol, uri, events) == s4);
    } else {
        assert(e3.len() == 0);
        assert(after_events(ctx, name, symbol, uri, events) == s3);
    }
}

/// After `k` mints that all ran to their end, with no withdrawal between
/// them, the record has `k` units more and is owed `k` fees more: a record
/// that began at nothing owed is owed exactly `k * fee`. Nothing else of it
/// has changed.
pub proof fn lemma_fees_after_completed_mints(
    ctx: MintNft,
    name: String,
    symbol: String,
    uri: String,
    runs: Seq<Seq<MintEvent>>,
)
    requires
        all_complete(ctx, name, symbol, uri, runs),
    ensures
        ({
            let before = ctx.avatar_data;
            let after = after_runs(ctx, name, symbol, uri, runs);
            &&& after.total_unclaimed_fees == before.total_unclaimed_fees + runs.len()
                * before.minting_fee_per_mint
            &&& after.current_supply == before.current_supply + runs.len()
            &&& runs.len() > 0 ==> after.current_supply <= before.max_supply
            &&& after == (AvatarData {
                current_supply: after.current_supply,
                total_unclaimed_fees: after.total_unclaimed_fees,
                ..before
            })
        }),
    decreases runs.len(),
{
    let before = ctx.avatar_data;
    let fee = before.minting_fee_per_mint as int;
    let k = runs.len() as int;
    if runs.len() == 0 {
        assert(k * fee == 0) by (nonlinear_arith)
            requires
                k == 0,
        ;
    } else {
        let start = ctx.at(MintStage::Start);
        let end = after_events(start, name, symbol, uri, runs.first());
        let rest = runs.drop_first();
        lemma_mint_changes_record_once(start, name, symbol, uri, runs.first());
        lemma_fees_after_completed_mints(end, name, symbol, uri, rest);
        let after = after_runs(ctx, name, symbol, uri, runs);
        assert(rest.len() == k - 1);
        assert(fee + (k - 1) * fee == k * fee) by (nonlinear_arith);
        assert(after.total_unclaimed_fees == before.total_unclaimed_fees + fee + (k - 1) * fee);
    }
}

/// A record can be minted as often as it has units left, provided the fees
/// fit: with a host that does all it is asked, `k` mints one after another
/// all run to their end.
pub proof fn lemma_smooth_runs_complete(
    ctx: MintNft,
    name: String,
    symbol: String,
    uri: String,
    k: nat,
)
    requires
        ctx.avatar_data.current_supply + k <= ctx.avatar_data.max_supply,
        ctx.avatar_data.total_unclaimed_fees + k * ctx.avatar_data.minting_fee_per_mint
            <= u64::MAX,
    ensures
        all_complete(ctx, name, symbol, uri, smooth_runs(ctx.avatar_data, k)),
    decreases k,
{
    if k > 0 {
        let record = ctx.avatar_data;
        let fee = record.minting_fee_per_mint as int;
        let runs = smooth_runs(record, k);
        let start = ctx.at(MintStage::Start);
        assert(fee + (k - 1) * fee == k * fee) by (nonlinear_arith);
        assert(0 <= (k - 1) * fee) by (nonlinear_arith)
            requires
                k > 0,
                fee >= 0,
        ;
        assert(record.mintable());
        lemma_smooth_mint(start, name, symbol, uri);
        let end = after_events(start, name, symbol, uri, runs.first());
        assert(runs.first() == smooth_events(record));
        assert(end.avatar_data == record.minted());
        assert(runs.drop_first() =~= smooth_runs(end.avatar_data, (k - 1) as nat));
        lemma_smooth_runs_complete(end, name, symbol, uri, (k - 1) as nat);
    }
}

/// The mint after the last allowed one is refused: once a new record has been
/// minted `max_supply` times its supply equals its cap, the next mint is
/// refused with `MaxSupplyReached` before anything is asked of the host, and
/// the supply stays where it is whatever is reported afterwards.
pub proof fn lemma_mint_past_cap_refused(
    ctx: MintNft,
    name: String,
    symbol: String,
    uri: String,
    runs: Seq<Seq<MintEvent>>,
    later: Seq<MintEvent>,
)
    requires
        ctx.avatar_data.current_supply == 0,
        runs.len() == ctx.avatar_data.max_supply,
        all_complete(ctx, name, symbol, uri, runs),
    ensures
        ({
            let full = MintNft {
                avatar_data: after_runs(ctx, name, symbol, uri, runs),
                stage: MintStage::Start,
                ..ctx
            };
            &&& full.avatar_data.current_supply == ctx.avatar_data.max_supply
            &&& full.avatar_data.max_supply == ctx.avatar_data.max_supply
            &&& full.step(name, symbol, uri, MintEvent::Begin) == full.aborted(
                MintFailure::Rejected(CustomError::MaxSupplyReached),
            )
            &&& after_events(
                full,
                name,
                symbol,
                uri,
                seq![MintEvent::Begin] + later,
            ).avatar_data == full.avatar_data
        }),
{
    lemma_fees_after_completed_mints(ctx, name, symbol, uri, runs);
    let full = MintNft {
        avatar_data: after_runs(ctx, name, symbol, uri, runs),
        stage: MintStage::Start,
        ..ctx
    };
    lemma_exhausted_record_refuses(full, name, symbol, uri, later);
}

/// A record without a fee can be minted until its cap is reached, and never
/// is the host asked to move value: `k` mints, for every `k` up to the units
/// left, all run to their end; what the record is owed stays where it was;
/// and no mint of it, however it goes, asks for a fee transfer.
pub proof fn lemma_zero_fee_mints(
    ctx: MintNft,
    name: String,
    symbol: String,
    uri: String,
    k: nat,
    events: Seq<MintEvent>,
)
    requires
        ctx.avatar_data.minting_fee_per_mint == 0,
        ctx.avatar_data.current_supply + k <= ctx.avatar_data.max_supply,
    ensures
        all_complete(ctx, name, symbol, uri, smooth_runs(ctx.avatar_data, k)),
        after_runs(ctx, name, symbol, uri, smooth_runs(ctx.avatar_data, k)).total_unclaimed_fees
            == ctx.avatar_data.total_unclaimed_fees,
        after_runs(ctx, name, symbol, uri, smooth_runs(ctx.avatar_data, k)).current_supply
            == ctx.avatar_data.current_supply + k,
        times_asked(
            actions_of(ctx.at(MintStage::Start), name, symbol, uri, events),
            HostCall::FeeTransfer,
        ) == 0,
{
    assert(k * 0 == 0) by (nonlinear_arith);
    lemma_smooth_runs_complete(ctx, name, symbol, uri, k);
    lemma_fees_after_completed_mints(ctx, name, symbol, uri, smooth_runs(ctx.avatar_data, k));
    lemma_each_asked_once(
        ctx.at(MintStage::Start),
        name,
        symbol,
        uri,
        events,
        HostCall::FeeTransfer,
    );
}

} // verus!
