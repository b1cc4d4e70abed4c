//! The accrual engine: how much of a stream's scheduled payout has fallen due.
//!
//! A stream's schedule is a list of segments. The engine walks it window by
//! window, from the stream's cursor up to the present. For each window the
//! host asks the logger which income was recorded in it and raises the
//! window's fraction to the segment's exponent; the engine is handed both as
//! the window's feed, and does the rest in whole numbers.

use crate::error::Error;
use crate::message::{Operation, OperationView};
use crate::state::{Aqueduct, AqueductView};
use crate::types::{Amount, ChainId, Segment, Stream, StreamId, StreamIdView, StreamView};
use vstd::arithmetic::div_mod::{lemma_fundamental_div_mod, lemma_hoist_over_denominator};
use vstd::prelude::*;

verus! {

/// The fixed-point one: 10^18.
pub const SCALE: u64 = 1_000_000_000_000_000_000;

/// No rate is larger than this.
pub const RATE_LIMIT: u128 = 179_400_000_000_000_000_000;

/// What the host found for one window: the window's fraction raised to the
/// segment's exponent, as a fixed-point number, and the records that the
/// logger returned for the stream's keywords, in order. A record that could
/// not be read is `None`.
#[derive(Debug, PartialEq, Eq)]
pub struct WindowFeed {
    pub power: u64,
    pub records: Vec<Option<Operation>>,
}

pub struct WindowFeedView {
    pub power: u64,
    pub records: Seq<Option<OperationView>>,
}

/// The views of a list of records.
pub open spec fn records_view(records: Seq<Option<Operation>>) -> Seq<Option<OperationView>> {
    Seq::new(
        records.len(),
        |i: int|
            match records[i] {
                Some(operation) => Some(operation@),
                None => None,
            },
    )
}

impl View for WindowFeed {
    type V = WindowFeedView;

    open spec fn view(&self) -> WindowFeedView {
        WindowFeedView { power: self.power, records: records_view(self.records@) }
    }
}

/// The views of a list of feeds.
pub open spec fn feed_view(feed: Seq<WindowFeed>) -> Seq<WindowFeedView> {
    Seq::new(feed.len(), |i: int| feed[i]@)
}

/// Where a walk through a schedule stands: the segment under way, the periods
/// of it that are done, the clock, and the boundary of the segment before.
#[derive(Clone, Copy, Debug, PartialEq, Eq, Structural)]
pub struct AccrualCursor {
    pub milestone: u64,
    pub period: u64,
    pub time: u64,
    pub previous: u64,
}

/// A cursor together with what has accrued on the way to it.
#[derive(Clone, Copy, Debug, PartialEq, Eq, Structural)]
pub struct AccrualRun {
    pub cursor: AccrualCursor,
    pub total: Amount,
}

/// One window of a walk: the times between which income counts, the segment
/// it lies in, and the two lengths whose quotient is the window's fraction.
#[derive(Clone, Copy, Debug, PartialEq, Eq, Structural)]
pub struct AccrualWindow {
    pub start: u64,
    pub end: u64,
    pub segment: u64,
    pub elapsed: u64,
    pub span: u64,
}

/// The sum of two times, held at the largest where it would pass it.
pub open spec fn sat_add(a: u64, b: u64) -> u64 {
    if a + b > u64::MAX {
        u64::MAX
    } else {
        (a + b) as u64
    }
}

/// The product of two times, held at the largest where it would pass it.
pub open spec fn sat_mul(a: u64, b: u64) -> u64 {
    if a * b > u64::MAX {
        u64::MAX
    } else {
        (a * b) as u64
    }
}

/// The difference of two times, or zero where the second is the larger.
pub open spec fn sat_sub(a: u64, b: u64) -> u64 {
    if a < b {
        0
    } else {
        (a - b) as u64
    }
}

/// Whether the first pair comes before the second, or equals it, in
/// lexicographic order.
pub open spec fn lex_le(a: (u64, u64), b: (u64, u64)) -> bool {
    a.0 < b.0 || (a.0 == b.0 && a.1 <= b.1)
}

/// Where a walk begins: at the stream's stored cursor, with the clock at the
/// stream's creation plus the boundary of the segment before plus the periods
/// done. It is meant for a cursor that has not run out of segments.
pub open spec fn cursor_start(stream: StreamView) -> AccrualCursor {
    let k = stream.milestones_received as int;
    let previous = if k > 0 {
        stream.segments[k - 1].milestone
    } else {
        0
    };
    AccrualCursor {
        milestone: stream.milestones_received,
        period: stream.periods_received,
        time: sat_add(
            sat_add(stream.created, previous),
            sat_mul(stream.segments[k].period, stream.periods_received),
        ),
        previous,
    }
}

/// Whether a walk goes on: the clock is in the past and segments are left.
pub open spec fn active(segments: Seq<Segment>, cursor: AccrualCursor, now: u64) -> bool {
    cursor.time < now && cursor.milestone < segments.len()
}

/// The end of the window that begins at the cursor: one period on, but not
/// past the segment's milestone.
pub open spec fn window_end(segment: Segment, cursor: AccrualCursor) -> u64 {
    let next = sat_add(cursor.time, segment.period);
    if next > segment.milestone {
        segment.milestone
    } else {
        next
    }
}

/// The window that begins at the cursor.
pub open spec fn window_at(segments: Seq<Segment>, cursor: AccrualCursor) -> AccrualWindow {
    let segment = segments[cursor.milestone as int];
    AccrualWindow {
        start: cursor.time,
        end: window_end(segment, cursor),
        segment: cursor.milestone,
        elapsed: sat_sub(cursor.time, cursor.previous),
        span: sat_sub(segment.milestone, cursor.previous),
    }
}

/// The cursor after the window that begins at it: the clock stands at the
/// window's end and one more period is done; where the end is the segment's
/// milestone, the next segment begins.
pub open spec fn advance(segments: Seq<Segment>, cursor: AccrualCursor) -> AccrualCursor {
    let segment = segments[cursor.milestone as int];
    let end = window_end(segment, cursor);
    if end == segment.milestone {
        AccrualCursor {
            milestone: (cursor.milestone + 1) as u64,
            period: 0,
            time: end,
            previous: segment.milestone,
        }
    } else {
        AccrualCursor { period: sat_add(cursor.period, 1), time: end, ..cursor }
    }
}

/// The rate of a window, as a fixed-point number: the segment's constant plus
/// its factor times the window's power, the product cut towards zero, and the
/// whole not below zero.
pub open spec fn spec_rate(segment: Segment, power: u64) -> u128 {
    let magnitude: int = if segment.factor >= 0 {
        segment.factor as int
    } else {
        -(segment.factor as int)
    };
    let scaled: int = (magnitude * power) / (SCALE as int);
    let raw: int = if segment.factor >= 0 {
        segment.constant + scaled
    } else {
        segment.constant - scaled
    };
    if raw <= 0 {
        0
    } else {
        raw as u128
    }
}

/// What an income of `amount` pays out at a rate: their fixed-point product,
/// cut to a whole number and held at the largest amount.
pub open spec fn spec_payout(amount: Amount, rate: u128) -> Amount {
    let due = (amount.0 * rate) / (SCALE as int);
    if due > u128::MAX {
        Amount(u128::MAX)
    } else {
        Amount(due as u128)
    }
}

/// What one record pays out: an income pays at the rate, anything else
/// nothing.
pub open spec fn record_payout(record: Option<OperationView>, rate: u128) -> Amount {
    match record {
        Some(OperationView::Income { amount, keyword }) => spec_payout(amount, rate),
        _ => Amount(0),
    }
}

/// What the records of one window pay out together.
pub open spec fn gain(records: Seq<Option<OperationView>>, rate: u128) -> Amount
    decreases records.len(),
{
    if records.len() == 0 {
        Amount(0)
    } else {
        gain(records.drop_last(), rate).spec_saturating_add(record_payout(records.last(), rate))
    }
}

/// The walk: from `run`, one window for each feed from position `i` on,
/// for as long as the walk is active.
pub open spec fn accrue(
    segments: Seq<Segment>,
    run: AccrualRun,
    now: u64,
    feed: Seq<WindowFeedView>,
    i: int,
) -> AccrualRun
    decreases feed.len() - i,
{
    if 0 <= i < feed.len() && active(segments, run.cursor, now) {
        let rate = spec_rate(segments[run.cursor.milestone as int], feed[i].power);
        accrue(
            segments,
            AccrualRun {
                cursor: advance(segments, run.cursor),
                total: run.total.spec_saturating_add(gain(feed[i].records, rate)),
            },
            now,
            feed,
            i + 1,
        )
    } else {
        run
    }
}

/// The windows of a walk from `cursor`, at most `limit` of them.
pub open spec fn windows(segments: Seq<Segment>, cursor: AccrualCursor, now: u64, limit: nat) -> Seq<
    AccrualWindow,
>
    decreases limit,
{
    if limit > 0 && active(segments, cursor, now) {
        seq![window_at(segments, cursor)] + windows(
            segments,
            advance(segments, cursor),
            now,
            (limit - 1) as nat,
        )
    } else {
        Seq::empty()
    }
}

/// Whether a stream's cursor has run out of segments.
pub open spec fn exhausted(stream: StreamView) -> bool {
    stream.milestones_received >= stream.segments.len()
}

/// A stream's walk up to `now` over a feed, from its stored cursor.
pub open spec fn stream_run(stream: StreamView, now: u64, feed: Seq<WindowFeedView>) -> AccrualRun {
    accrue(
        stream.segments,
        AccrualRun { cursor: cursor_start(stream), total: Amount(0) },
        now,
        feed,
        0,
    )
}

/// The stream with its cursor where a run ended.
pub open spec fn stream_after(stream: StreamView, run: AccrualRun) -> StreamView {
    StreamView {
        milestones_received: run.cursor.milestone,
        periods_received: run.cursor.period,
        ..stream
    }
}

/// The windows that a stream's walk up to `now` begins with.
pub open spec fn stream_windows(stream: StreamView, now: u64, limit: nat) -> Seq<AccrualWindow> {
    if exhausted(stream) {
        Seq::empty()
    } else {
        windows(stream.segments, cursor_start(stream), now, limit)
    }
}

impl AqueductView {
    /// What an accrual pays, and the ledger after it. A stream that the chain
    /// does not hold is an error; a cursor that has run out of segments pays
    /// nothing and changes nothing; otherwise the stream's walk decides.
    pub open spec fn handle_receive(
        self,
        stream_id: StreamIdView,
        now: u64,
        feed: Seq<WindowFeedView>,
    ) -> (Result<Amount, Error>, AqueductView) {
        if !self.nfts.contains_key(stream_id) {
            (Err(Error::CompanyDoesntHaveStreamError), self)
        } else if exhausted(self.nfts[stream_id]) {
            (Ok(Amount(0)), self)
        } else {
            let stream = self.nfts[stream_id];
            let run = stream_run(stream, now, feed);
            (
                Ok(run.total),
                AqueductView { nfts: self.nfts.insert(stream_id, stream_after(stream, run)), ..self },
            )
        }
    }

    /// The windows that an accrual on `stream_id` up to `now` begins with.
    pub open spec fn accrual_windows(self, stream_id: StreamIdView, now: u64, limit: nat) -> Seq<
        AccrualWindow,
    > {
        if self.nfts.contains_key(stream_id) {
            stream_windows(self.nfts[stream_id], now, limit)
        } else {
            Seq::empty()
        }
    }
}

/// No rate passes `RATE_LIMIT`.
pub proof fn lemma_rate_bound(segment: Segment, power: u64)
    ensures
        spec_rate(segment, power) <= RATE_LIMIT,
{
    let magnitude: int = if segment.factor >= 0 {
        segment.factor as int
    } else {
        -(segment.factor as int)
    };
    assert(0 <= magnitude <= 0x8000_0000_0000_0000);
    assert(0 <= magnitude * power <= 0x8000_0000_0000_0000 * 0xffff_ffff_ffff_ffff)
        by (nonlinear_arith)
        requires
            0 <= magnitude <= 0x8000_0000_0000_0000,
            0 <= power <= 0xffff_ffff_ffff_ffff,
    ;
}

/// The rate of a window.
pub fn accrual_rate(segment: &Segment, power: u64) -> (r: u128)
    ensures
        r == spec_rate(*segment, power),
        r <= RATE_LIMIT,
{
    proof {
        lemma_rate_bound(*segment, power);
    }
    let magnitude: u128 = if segment.factor >= 0 {
        segment.factor as u128
    } else {
        (-(segment.factor as i128)) as u128
    };
    assert(0 <= magnitude * power <= 0x8000_0000_0000_0000 * 0xffff_ffff_ffff_ffff)
        by (nonlinear_arith)
        requires
            0 <= magnitude <= 0x8000_0000_0000_0000,
            0 <= power <= 0xffff_ffff_ffff_ffff,
    ;
    let product: u128 = magnitude * (power as u128);
    let scaled: u128 = product / (SCALE as u128);
    let raw: i128 = if segment.factor >= 0 {
        segment.constant as i128 + scaled as i128
    } else {
        segment.constant as i128 - scaled as i128
    };
    if raw <= 0 {
        0
    } else {
        raw as u128
    }
}

/// What an income of `amount` pays out at `rate`.
fn payout_at(amount: Amount, rate: u128) -> (r: Amount)
    requires
        rate <= RATE_LIMIT,
    ensures
        r == spec_payout(amount, rate),
{
    let scale: u128 = SCALE as u128;
    let whole: u128 = amount.0 / scale;
    let rest: u128 = amount.0 % scale;
    assert(0 <= rest * rate <= 1_000_000_000_000_000_000 * 179_400_000_000_000_000_000)
        by (nonlinear_arith)
        requires
            0 <= rest < 1_000_000_000_000_000_000,
            0 <= rate <= 179_400_000_000_000_000_000,
    ;
    let low: u128 = (rest * rate) / scale;
    proof {
        let s = SCALE as int;
        lemma_fundamental_div_mod(amount.0 as int, s);
        assert(amount.0 * rate == rest * rate + (whole * rate) * s) by (nonlinear_arith)
            requires
                amount.0 == s * whole + rest,
        ;
        lemma_hoist_over_denominator(rest * rate, whole * rate, s as nat);
        assert((amount.0 * rate) / s == low + whole * rate);
        assert(0 <= whole * rate) by (nonlinear_arith)
            requires
                0 <= whole,
                0 <= rate,
        ;
    }
    match whole.checked_mul(rate) {
        Some(high) => match high.checked_add(low) {
            Some(due) => Amount(due),
            None => Amount(u128::MAX),
        },
        None => Amount(u128::MAX),
    }
}

/// What an income of `amount` pays out in a window of `segment` whose power
/// is `power`.
pub fn accrual_payout(segment: &Segment, power: u64, amount: Amount) -> (r: Amount)
    ensures
        r == spec_payout(amount, spec_rate(*segment, power)),
{
    let rate = accrual_rate(segment, power);
    payout_at(amount, rate)
}

/// What the records of one window pay out together at `rate`.
fn window_gain(records: &Vec<Option<Operation>>, rate: u128) -> (r: Amount)
    requires
        rate <= RATE_LIMIT,
    ensures
        r == gain(records_view(records@), rate),
{
    let ghost all = records_view(records@);
    let mut total = Amount(0);
    let mut i: usize = 0;
    while i < records.len()
        invariant
            i <= records.len(),
            rate <= RATE_LIMIT,
            all == records_view(records@),
            total == gain(all.take(i as int), rate),
        decreases records.len() - i,
    {
        let paid = match &records[i] {
            Some(Operation::Income { amount, keyword }) => payout_at(*amount, rate),
            _ => Amount(0),
        };
        proof {
            let next = all.take(i + 1);
            assert(next.drop_last() =~= all.take(i as int));
            assert(next.last() == all[i as int]);
            assert(paid == record_payout(all[i as int], rate));
        }
        total = total.saturating_add(paid);
        i += 1;
    }
    assert(all.take(records.len() as int) =~= all);
    total
}

/// A sum of times that stays at the largest.
fn add_times(a: u64, b: u64) -> (r: u64)
    ensures
        r == sat_add(a, b),
{
    a.saturating_add(b)
}

/// A product of times that stays at the largest.
fn mul_times(a: u64, b: u64) -> (r: u64)
    ensures
        r == sat_mul(a, b),
{
    match a.checked_mul(b) {
        Some(product) => product,
        None => u64::MAX,
    }
}

impl Stream {
    /// Whether the cursor has run out of segments.
    pub fn exhausted(&self) -> (r: bool)
        ensures
            r == exhausted(self@),
    {
        self.milestones_received >= self.segments.len() as u64
    }

    /// Where a walk through this stream begins.
    fn cursor_start(&self) -> (r: AccrualCursor)
        requires
            !exhausted(self@),
        ensures
            r == cursor_start(self@),
    {
        assert(self.milestones_received < self.segments.len());
        let k = self.milestones_received as usize;
        assert(k == self.milestones_received);
        let previous: u64 = if k > 0 {
            self.segments[k - 1].milestone
        } else {
            0
        };
        AccrualCursor {
            milestone: self.milestones_received,
            period: self.periods_received,
            time: add_times(
                add_times(self.created, previous),
                mul_times(self.segments[k].period, self.periods_received),
            ),
            previous,
        }
    }
}

/// Whether a walk goes on.
fn cursor_active(segments: &Vec<Segment>, cursor: &AccrualCursor, now: u64) -> (r: bool)
    ensures
        r == active(segments@, *cursor, now),
{
    cursor.time < now && cursor.milestone < segments.len() as u64
}

/// The window that begins at the cursor.
fn cursor_window(segments: &Vec<Segment>, cursor: &AccrualCursor) -> (r: AccrualWindow)
    requires
        cursor.milestone < segments.len(),
    ensures
        r == window_at(segments@, *cursor),
{
    let segment = &segments[cursor.milestone as usize];
    let next = add_times(cursor.time, segment.period);
    let end = if next > segment.milestone {
        segment.milestone
    } else {
        next
    };
    AccrualWindow {
        start: cursor.time,
        end,
        segment: cursor.milestone,
        elapsed: cursor.time.saturating_sub(cursor.previous),
        span: segment.milestone.saturating_sub(cursor.previous),
    }
}

/// The cursor after the window that begins at it.
fn cursor_advance(segments: &Vec<Segment>, cursor: &AccrualCursor) -> (r: AccrualCursor)
    requires
        cursor.milestone < segments.len(),
    ensures
        r == advance(segments@, *cursor),
{
    let segment = &segments[cursor.milestone as usize];
    let next = add_times(cursor.time, segment.period);
    let end = if next > segment.milestone {
        segment.milestone
    } else {
        next
    };
    if end == segment.milestone {
        AccrualCursor {
            milestone: cursor.milestone + 1,
            period: 0,
            time: end,
            previous: segment.milestone,
        }
    } else {
        AccrualCursor {
            milestone: cursor.milestone,
            period: add_times(cursor.period, 1),
            time: end,
            previous: cursor.previous,
        }
    }
}

/// A stream's walk up to `now` over a feed.
fn run_stream(stream: &Stream, now: u64, feed: &Vec<WindowFeed>) -> (r: AccrualRun)
    requires
        !exhausted(stream@),
    ensures
        r == stream_run(stream@, now, feed_view(feed@)),
{
    let ghost all = feed_view(feed@);
    let ghost first = AccrualRun { cursor: cursor_start(stream@), total: Amount(0) };
    let mut cursor = stream.cursor_start();
    let mut total = Amount(0);
    let mut i: usize = 0;
    while i < feed.len() && cursor_active(&stream.segments, &cursor, now)
        invariant
            i <= feed.len(),
            all == feed_view(feed@),
            accrue(stream.segments@, AccrualRun { cursor, total }, now, all, i as int) == accrue(
                stream.segments@,
                first,
                now,
                all,
                0,
            ),
        decreases feed.len() - i,
    {
        let ghost here = AccrualRun { cursor, total };
        assert(cursor.milestone < stream.segments.len());
        let entry = &feed[i];
        let rate = accrual_rate(&stream.segments[cursor.milestone as usize], entry.power);
        let gained = window_gain(&entry.records, rate);
        assert(all[i as int] == entry@);
        total = total.saturating_add(gained);
        cursor = cursor_advance(&stream.segments, &cursor);
        assert(accrue(stream.segments@, here, now, all, i as int) == accrue(
            stream.segments@,
            AccrualRun { cursor, total },
            now,
            all,
            i + 1,
        ));
        i += 1;
    }
    AccrualRun { cursor, total }
}

/// The windows that a stream's walk up to `now` begins with, at most `limit`.
pub fn plan_windows(stream: &Stream, now: u64, limit: usize) -> (r: Vec<AccrualWindow>)
    ensures
        r@ == stream_windows(stream@, now, limit as nat),
{
    let mut out: Vec<AccrualWindow> = Vec::new();
    if stream.exhausted() {
        return out;
    }
    let ghost first = cursor_start(stream@);
    let mut cursor = stream.cursor_start();
    let mut left: usize = limit;
    while left > 0 && cursor_active(&stream.segments, &cursor, now)
        invariant
            out@ + windows(stream.segments@, cursor, now, left as nat) == windows(
                stream.segments@,
                first,
                now,
                limit as nat,
            ),
        decreases left,
    {
        let ghost before = out@;
        let ghost rest = windows(
            stream.segments@,
            advance(stream.segments@, cursor),
            now,
            (left - 1) as nat,
        );
        out.push(cursor_window(&stream.segments, &cursor));
        proof {
            assert(out@ + rest =~= before + (seq![window_at(stream.segments@, cursor)] + rest));
        }
        cursor = cursor_advance(&stream.segments, &cursor);
        left -= 1;
    }
    proof {
        assert(windows(stream.segments@, cursor, now, left as nat) =~= Seq::<
            AccrualWindow,
        >::empty());
        assert(out@ + Seq::<AccrualWindow>::empty() =~= out@);
    }
    out
}

impl Aqueduct {
    /// Pays out what has fallen due on a stream of this chain, and moves the
    /// stream's cursor on. `to` names the chain that asks. `feed` holds, for
    /// each window of the walk in turn, what the host found for it; the walk
    /// goes no further than the feed.
    pub fn handle_receive(
        &mut self,
        stream_id: &StreamId,
        to: ChainId,
        now: u64,
        feed: &Vec<WindowFeed>,
    ) -> (r: Result<Amount, Error>)
        ensures
            r == old(self)@.handle_receive(stream_id@, now, feed_view(feed@)).0,
            final(self)@ == old(self)@.handle_receive(stream_id@, now, feed_view(feed@)).1,
    {
        let skip = match self.nfts.get(stream_id) {
            Some(stream) => stream.exhausted(),
            None => {
                return Err(Error::CompanyDoesntHaveStreamError);
            },
        };
        if skip {
            return Ok(Amount(0));
        }
        let ghost before = self@;
        match self.nfts.remove(stream_id) {
            Some(stream) => {
                let run = run_stream(&stream, now, feed);
                let after = Stream {
                    keywords: stream.keywords,
                    segments: stream.segments,
                    created: stream.created,
                    milestones_received: run.cursor.milestone,
                    periods_received: run.cursor.period,
                };
                assert(after@ == stream_after(before.nfts[stream_id@], run));
                self.nfts.insert(stream_id.clone(), after);
                assert(self.nfts@ =~= before.nfts.insert(
                    stream_id@,
                    stream_after(before.nfts[stream_id@], run),
                ));
                Ok(run.total)
            },
            None => Ok(Amount(0)),
        }
    }

    /// The windows that an accrual on `stream_id` up to `now` begins with, at
    /// most `limit` of them: what the host has to find feeds for.
    pub fn accrual_windows(&self, stream_id: &StreamId, now: u64, limit: usize) -> (r: Vec<
        AccrualWindow,
    >)
        ensures
            r@ == self@.accrual_windows(stream_id@, now, limit as nat),
    {
        match self.nfts.get(stream_id) {
            Some(stream) => plan_windows(stream, now, limit),
            None => Vec::new(),
        }
    }
}

} // verus!
