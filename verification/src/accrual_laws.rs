//! What holds of the accrual engine over several accruals: the cursor of a
//! stream only moves on, an accrual without new income pays nothing, and an
//! accrual that has walked up to the present is idempotent.

use crate::accrual::{
    accrue, active, advance, cursor_start, exhausted, gain, lex_le, record_payout, sat_add,
    sat_mul, spec_rate, stream_after, stream_run, stream_windows, AccrualCursor, AccrualRun,
    AccrualWindow, WindowFeedView,
};
use crate::error::Error;
use crate::message::OperationView;
use crate::state::AqueductView;
use crate::types::{Amount, Segment, StreamIdView, StreamView};
use vstd::prelude::*;

verus! {

/// One window never moves a cursor back.
pub proof fn lemma_advance_moves_on(segments: Seq<Segment>, run: AccrualRun, now: u64)
    requires
        segments.len() <= u64::MAX,
        active(segments, run.cursor, now),
    ensures
        lex_le(
            (run.cursor.milestone, run.cursor.period),
            (advance(segments, run.cursor).milestone, advance(segments, run.cursor).period),
        ),
        advance(segments, run.cursor).milestone <= segments.len(),
{
}

/// A walk never moves a cursor back.
pub proof fn lemma_walk_moves_on(
    segments: Seq<Segment>,
    run: AccrualRun,
    now: u64,
    feed: Seq<WindowFeedView>,
    i: int,
)
    requires
        segments.len() <= u64::MAX,
        0 <= i,
    ensures
        lex_le(
            (run.cursor.milestone, run.cursor.period),
            (
                accrue(segments, run, now, feed, i).cursor.milestone,
                accrue(segments, run, now, feed, i).cursor.period,
            ),
        ),
    decreases feed.len() - i,
{
    if i < feed.len() && active(segments, run.cursor, now) {
        lemma_advance_moves_on(segments, run, now);
        let rate = spec_rate(segments[run.cursor.milestone as int], feed[i].power);
        let next = AccrualRun {
            cursor: advance(segments, run.cursor),
            total: run.total.spec_saturating_add(gain(feed[i].records, rate)),
        };
        lemma_walk_moves_on(segments, next, now, feed, i + 1);
    }
}

/// The cursor of a stream never moves back: after an accrual, the pair of
/// milestones received and periods received comes after the pair before, or
/// equals it, in lexicographic order; and so over any two accruals in a row.
pub proof fn law_cursor_never_moves_back(
    state: AqueductView,
    stream_id: StreamIdView,
    now: u64,
    feed: Seq<WindowFeedView>,
    later: u64,
    later_feed: Seq<WindowFeedView>,
)
    requires
        state.nfts.contains_key(stream_id),
        state.nfts[stream_id].segments.len() <= u64::MAX,
    ensures
        ({
            let first = state.handle_receive(stream_id, now, feed).1;
            let second = first.handle_receive(stream_id, later, later_feed).1;
            let a = state.nfts[stream_id];
            let b = first.nfts[stream_id];
            let c = second.nfts[stream_id];
            &&& first.nfts.contains_key(stream_id)
            &&& second.nfts.contains_key(stream_id)
            &&& lex_le(
                (a.milestones_received, a.periods_received),
                (b.milestones_received, b.periods_received),
            )
            &&& lex_le(
                (b.milestones_received, b.periods_received),
                (c.milestones_received, c.periods_received),
            )
        }),
{
    let a = state.nfts[stream_id];
    if !exhausted(a) {
        lemma_walk_moves_on(
            a.segments,
            AccrualRun { cursor: cursor_start(a), total: Amount(0) },
            now,
            feed,
            0,
        );
    }
    let first = state.handle_receive(stream_id, now, feed).1;
    let b = first.nfts[stream_id];
    assert(b.segments == a.segments);
    if !exhausted(b) {
        lemma_walk_moves_on(
            b.segments,
            AccrualRun { cursor: cursor_start(b), total: Amount(0) },
            later,
            later_feed,
            0,
        );
    }
}

/// Whether a feed holds no record of an income.
pub open spec fn no_income(feed: Seq<WindowFeedView>) -> bool {
    forall|i: int, j: int|
        0 <= i < feed.len() && 0 <= j < feed[i].records.len() ==> !(
        #[trigger] feed[i].records[j] matches Some(OperationView::Income { .. }))
}

/// Records without an income pay nothing.
pub proof fn lemma_no_income_no_gain(records: Seq<Option<OperationView>>, rate: u128)
    requires
        forall|j: int|
            0 <= j < records.len() ==> !(#[trigger] records[j] matches Some(
                OperationView::Income { .. },
            )),
    ensures
        gain(records, rate) == Amount(0),
    decreases records.len(),
{
    if records.len() > 0 {
        let rest = records.drop_last();
        assert forall|j: int| 0 <= j < rest.len() implies !(#[trigger] rest[j] matches Some(
            OperationView::Income { .. },
        )) by {
            assert(rest[j] == records[j]);
        }
        lemma_no_income_no_gain(rest, rate);
        assert(records.last() == records[records.len() - 1]);
        assert(record_payout(records.last(), rate) == Amount(0));
    }
}

/// A walk over a feed without an income adds nothing.
pub proof fn lemma_no_income_no_total(
    segments: Seq<Segment>,
    run: AccrualRun,
    now: u64,
    feed: Seq<WindowFeedView>,
    i: int,
)
    requires
        no_income(feed),
        0 <= i,
    ensures
        accrue(segments, run, now, feed, i).total == run.total,
    decreases feed.len() - i,
{
    if i < feed.len() && active(segments, run.cursor, now) {
        let rate = spec_rate(segments[run.cursor.milestone as int], feed[i].power);
        lemma_no_income_no_gain(feed[i].records, rate);
        let next = AccrualRun { cursor: advance(segments, run.cursor), total: run.total };
        assert(run.total.spec_saturating_add(Amount(0)) == run.total);
        lemma_no_income_no_total(segments, next, now, feed, i + 1);
    }
}

/// An accrual that finds no new income pays nothing: whatever a first
/// accrual did, a second one whose feed holds no record of an income pays
/// out zero.
pub proof fn law_accrual_without_income_pays_nothing(
    state: AqueductView,
    stream_id: StreamIdView,
    now: u64,
    feed: Seq<WindowFeedView>,
    later: u64,
    later_feed: Seq<WindowFeedView>,
)
    requires
        state.nfts.contains_key(stream_id),
        no_income(later_feed),
    ensures
        state.handle_receive(stream_id, now, feed).1.handle_receive(
            stream_id,
            later,
            later_feed,
        ).0 == Ok::<Amount, Error>(Amount(0)),
{
    let first = state.handle_receive(stream_id, now, feed).1;
    let b = first.nfts[stream_id];
    assert(first.nfts.contains_key(stream_id));
    if !exhausted(b) {
        lemma_no_income_no_total(
            b.segments,
            AccrualRun { cursor: cursor_start(b), total: Amount(0) },
            later,
            later_feed,
            0,
        );
    }
}

/// The boundary of the segment before the one at `milestone`; zero for the
/// first.
pub open spec fn previous_of(segments: Seq<Segment>, milestone: u64) -> u64 {
    if milestone > 0 {
        segments[milestone - 1].milestone
    } else {
        0
    }
}

/// The clock at which a walk that begins at the cursor's place in the
/// schedule sets out.
pub open spec fn restart_time(created: u64, segments: Seq<Segment>, cursor: AccrualCursor) -> u64 {
    sat_add(
        sat_add(created, cursor.previous),
        sat_mul(segments[cursor.milestone as int].period, cursor.period),
    )
}

/// Whether a cursor is on schedule: it knows the boundary before its segment,
/// and its clock is not ahead of the clock at which a walk from its place
/// would set out.
pub open spec fn on_schedule(created: u64, segments: Seq<Segment>, cursor: AccrualCursor) -> bool {
    &&& cursor.previous == previous_of(segments, cursor.milestone)
    &&& cursor.milestone < segments.len() ==> cursor.time <= restart_time(
        created,
        segments,
        cursor,
    )
}

/// One window keeps a cursor on schedule.
pub proof fn lemma_advance_keeps_schedule(
    created: u64,
    segments: Seq<Segment>,
    cursor: AccrualCursor,
    now: u64,
)
    requires
        segments.len() <= u64::MAX,
        active(segments, cursor, now),
        on_schedule(created, segments, cursor),
    ensures
        on_schedule(created, segments, advance(segments, cursor)),
{
    let segment = segments[cursor.milestone as int];
    let p = segment.period;
    let next = advance(segments, cursor);
    if next.milestone == cursor.milestone {
        let base = sat_add(created, cursor.previous);
        if cursor.period < u64::MAX {
            assert(p * (cursor.period + 1) == p * cursor.period + p) by (nonlinear_arith);
            assert(0 <= p * cursor.period) by (nonlinear_arith);
        } else {
            if p > 0 {
                assert(p * cursor.period >= cursor.period) by (nonlinear_arith)
                    requires
                        p >= 1,
                        cursor.period >= 0,
                ;
            } else {
                assert(p * cursor.period == 0) by (nonlinear_arith)
                    requires
                        p == 0,
                ;
            }
        }
    }
}

/// A walk keeps a cursor on schedule.
pub proof fn lemma_walk_keeps_schedule(
    created: u64,
    segments: Seq<Segment>,
    run: AccrualRun,
    now: u64,
    feed: Seq<WindowFeedView>,
    i: int,
)
    requires
        segments.len() <= u64::MAX,
        0 <= i,
        on_schedule(created, segments, run.cursor),
    ensures
        on_schedule(created, segments, accrue(segments, run, now, feed, i).cursor),
    decreases feed.len() - i,
{
    if i < feed.len() && active(segments, run.cursor, now) {
        lemma_advance_keeps_schedule(created, segments, run.cursor, now);
        let rate = spec_rate(segments[run.cursor.milestone as int], feed[i].power);
        let next = AccrualRun {
            cursor: advance(segments, run.cursor),
            total: run.total.spec_saturating_add(gain(feed[i].records, rate)),
        };
        lemma_walk_keeps_schedule(created, segments, next, now, feed, i + 1);
    }
}

/// Whether an accrual on a stream up to `now` over `feed` walked as far as
/// the clock allows: the schedule was at its end, or the walk stopped for
/// the clock or the schedule and not for want of a feed.
pub open spec fn walked_to_the_end(stream: StreamView, now: u64, feed: Seq<WindowFeedView>) -> bool {
    exhausted(stream) || !active(stream.segments, stream_run(stream, now, feed).cursor, now)
}

/// An accrual is idempotent. Once an accrual has walked as far as the clock
/// allows, a second accrual at that moment, or at an earlier one, finds no
/// window to walk: whatever it is fed, it pays nothing and leaves the ledger
/// as it is.
pub proof fn law_accrual_is_idempotent(
    state: AqueductView,
    stream_id: StreamIdView,
    now: u64,
    feed: Seq<WindowFeedView>,
    again: u64,
    again_feed: Seq<WindowFeedView>,
)
    requires
        state.nfts.contains_key(stream_id),
        state.nfts[stream_id].segments.len() <= u64::MAX,
        walked_to_the_end(state.nfts[stream_id], now, feed),
        again <= now,
    ensures
        ({
            let first = state.handle_receive(stream_id, now, feed).1;
            let second = first.handle_receive(stream_id, again, again_feed);
            &&& second.0 == Ok::<Amount, Error>(Amount(0))
            &&& second.1.nfts =~= first.nfts
            &&& second.1.listings == first.listings
            &&& second.1.number_minted == first.number_minted
            &&& second.1.current_owner_minted == first.current_owner_minted
            &&& second.1.owned_tokens == first.owned_tokens
            &&& second.1.balance == first.balance
            &&& stream_windows(first.nfts[stream_id], again, again_feed.len()) =~= Seq::<
                AccrualWindow,
            >::empty()
        }),
{
    let a = state.nfts[stream_id];
    let first = state.handle_receive(stream_id, now, feed).1;
    let b = first.nfts[stream_id];
    if !exhausted(a) {
        let start = AccrualRun { cursor: cursor_start(a), total: Amount(0) };
        lemma_walk_keeps_schedule(a.created, a.segments, start, now, feed, 0);
        lemma_walk_moves_on(a.segments, start, now, feed, 0);
        let run = stream_run(a, now, feed);
        assert(b == stream_after(a, run));
        if !exhausted(b) {
            assert(cursor_start(b).time == restart_time(a.created, a.segments, run.cursor));
            assert(!active(b.segments, cursor_start(b), again));
        }
    }
}

} // verus!
