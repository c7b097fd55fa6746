//! What holds of the record worker over whole days: which records a cycle
//! asks for whatever fails along the way, that ticks between the boundaries
//! change nothing, and that a halted worker stays silent.

use vstd::prelude::*;

use crate::types::{CurrencyData, RecordData};
use crate::workers::clock::TimeOfDay;
use crate::workers::records::{list_action, ActionView, MarketState, Phase, WorkerModel};
use crate::workers::snapshot::{entries_of, entry_map, lemma_entries_of};

verus! {

/// What became of one currency's record and chart.
pub enum Outcome {
    /// The record could not be stored.
    InsertFailed,
    /// The record was stored, and the history could not be read.
    HistoryFailed { record: RecordData },
    /// The record was stored, the history was read, and the chart was
    /// published or failed to be.
    ChartFinished { record: RecordData, history: Seq<RecordData>, published: bool },
}

/// The worker's state and next action once the currency whose record it
/// awaits has met with `outcome`.
pub open spec fn settle(m: WorkerModel, outcome: Outcome) -> (WorkerModel, ActionView) {
    match outcome {
        Outcome::InsertFailed => m.record_inserted(None),
        Outcome::HistoryFailed { record } => m.record_inserted(Some(record)).0.history_fetched(
            None,
        ),
        Outcome::ChartFinished { record, history, published } => m.record_inserted(
            Some(record),
        ).0.history_fetched(Some(history)).0.chart_published(published),
    }
}

/// The requests for the records of the currencies that are in both
/// snapshots, from position `from` of the opening snapshot on, in order.
pub open spec fn requests_from(m: WorkerModel, from: int) -> Seq<ActionView>
    decreases m.opening.len() - from,
{
    if from < 0 || from >= m.opening.len() {
        Seq::empty()
    } else if m.matched(from) {
        seq![m.request_at(from)] + requests_from(m, from + 1)
    } else {
        requests_from(m, from + 1)
    }
}

/// The requests for records that the worker makes from `step` on, when the
/// currencies it asks about meet with `outcomes`, one after the other.
pub open spec fn cycle_requests(step: (WorkerModel, ActionView), outcomes: Seq<Outcome>) -> Seq<
    ActionView,
>
    decreases outcomes.len(),
{
    if !(step.1 is InsertRecord) {
        Seq::empty()
    } else if outcomes.len() == 0 {
        seq![step.1]
    } else {
        seq![step.1] + cycle_requests(settle(step.0, outcomes[0]), outcomes.drop_first())
    }
}

/// The state after a run of ticks at the given times, none with a halt
/// message waiting.
pub open spec fn after_ticks(m: WorkerModel, times: Seq<TimeOfDay>) -> WorkerModel
    decreases times.len(),
{
    if times.len() == 0 {
        m
    } else {
        after_ticks(m, times.drop_last()).tick(times.last(), false).0
    }
}

/// Which currencies are matched, and what is asked for them, does not
/// depend on what the worker is waiting for.
proof fn lemma_phase_is_irrelevant(m: WorkerModel, phase: Phase, from: int)
    ensures
        m.with_phase(phase).next_match(from) == m.next_match(from),
        m.with_phase(phase).resume(from) == m.resume(from),
        requests_from(m.with_phase(phase), from) == requests_from(m, from),
    decreases m.opening.len() - from,
{
    let p = m.with_phase(phase);
    if 0 <= from < m.opening.len() {
        lemma_phase_is_irrelevant(m, phase, from + 1);
        assert(p.matched(from) == m.matched(from));
    }
    assert(p.next_match(from) == m.next_match(from));
    assert(forall|i: int| p.request_at(i) == m.request_at(i));
    assert(forall|q: Phase| p.with_phase(q) == m.with_phase(q));
}

/// Failure isolation: whatever becomes of one currency's record and chart,
/// the worker goes on with the next currency exactly as it would have done
/// had everything succeeded.
pub proof fn law_failures_are_isolated(m: WorkerModel, outcome: Outcome)
    requires
        m.valid(),
        m.phase is AwaitingInsert,
    ensures
        settle(m, outcome) == m.resume(m.cursor()->0 + 1),
{
    let cursor = m.phase->AwaitingInsert_cursor;
    match outcome {
        Outcome::InsertFailed => {},
        Outcome::HistoryFailed { record } => {
            lemma_phase_is_irrelevant(m, Phase::AwaitingHistory { cursor, record }, cursor + 1);
        },
        Outcome::ChartFinished { record, history, published } => {
            let m1 = m.with_phase(Phase::AwaitingHistory { cursor, record });
            assert(m1.with_phase(Phase::AwaitingPublish { cursor }) == m.with_phase(
                Phase::AwaitingPublish { cursor },
            ));
            lemma_phase_is_irrelevant(m, Phase::AwaitingPublish { cursor }, cursor + 1);
        },
    }
}

/// From any position on, the worker asks for exactly the records of the
/// currencies that both snapshots hold, whatever the outcomes.
proof fn lemma_cycle_from(m: WorkerModel, from: int, outcomes: Seq<Outcome>)
    requires
        m.valid(),
        0 <= from,
        outcomes.len() >= requests_from(m, from).len(),
    ensures
        cycle_requests(m.resume(from), outcomes) == requests_from(m, from),
    decreases m.opening.len() - from,
{
    m.lemma_next_match(from);
    let next = m.next_match(from);
    if from <= m.opening.len() {
        lemma_unmatched_are_skipped(m, from, next);
    }
    if next < m.opening.len() {
        let step = m.resume(from);
        assert(step.1 is InsertRecord);
        assert(requests_from(m, next) == seq![m.request_at(next)] + requests_from(m, next + 1));
        assert(requests_from(m, from).len() >= 1);
        m.lemma_resume_valid(from);
        law_failures_are_isolated(step.0, outcomes[0]);
        lemma_phase_is_irrelevant(m, Phase::AwaitingInsert { cursor: next as usize }, next + 1);
        lemma_cycle_from(m, next + 1, outcomes.drop_first());
    }
}

/// Positions whose currency is missing from the closing snapshot add no
/// request.
proof fn lemma_unmatched_are_skipped(m: WorkerModel, from: int, to: int)
    requires
        0 <= from <= to <= m.opening.len(),
        forall|k: int| from <= k < to ==> !m.matched(k),
    ensures
        requests_from(m, from) == requests_from(m, to),
    decreases to - from,
{
    if from < to {
        lemma_unmatched_are_skipped(m, from + 1, to);
    }
}

/// A day's records: once the closing list has been read, the worker asks
/// for the record of every currency that is in both snapshots, once each
/// and in the order of the opening snapshot, whichever of the inserts,
/// history reads and publications fail.
pub proof fn law_cycle_requests(m: WorkerModel, list: Seq<CurrencyData>, outcomes: Seq<Outcome>)
    requires
        m.valid(),
        m.phase is AwaitingClosing,
        outcomes.len() >= m.opening.len(),
    ensures
        cycle_requests(m.currencies_listed(Some(list)), outcomes) == requests_from(
            WorkerModel { market: MarketState::Closed, closing: entries_of(list), ..m },
            0,
        ),
{
    let closed = WorkerModel { market: MarketState::Closed, closing: entries_of(list), ..m };
    lemma_entries_of(list);
    lemma_requests_len(closed, 0);
    lemma_cycle_from(closed, 0, outcomes);
}

/// There are at most as many requests as positions left.
proof fn lemma_requests_len(m: WorkerModel, from: int)
    requires
        0 <= from,
    ensures
        requests_from(m, from).len() <= m.opening.len(),
        from <= m.opening.len() ==> requests_from(m, from).len() <= m.opening.len() - from,
    decreases m.opening.len() - from,
{
    if from < m.opening.len() {
        lemma_requests_len(m, from + 1);
    }
}

/// Every currency that is in both snapshots has its request among those of
/// the day, with its value at opening and its value at closing.
pub proof fn law_matched_are_requested(m: WorkerModel, i: int)
    requires
        m.matched(i),
    ensures
        requests_from(m, 0).contains(m.request_at(i)),
        m.request_at(i) == (ActionView::InsertRecord {
            currency_id: m.opening[i].currency_id,
            opening_value: m.opening[i].value_spec(),
            closing_value: entry_map(m.closing)[m.opening[i].currency_id].value_spec(),
        }),
{
    lemma_requested_from(m, 0, i);
}

proof fn lemma_requested_from(m: WorkerModel, from: int, i: int)
    requires
        0 <= from <= i,
        m.matched(i),
    ensures
        requests_from(m, from).contains(m.request_at(i)),
    decreases i - from,
{
    let rest = requests_from(m, from + 1);
    if from < i {
        lemma_requested_from(m, from + 1, i);
        let k = choose|k: int| 0 <= k < rest.len() && rest[k] == m.request_at(i);
        if m.matched(from) {
            assert(requests_from(m, from)[k + 1] == rest[k]);
        }
    } else {
        assert(requests_from(m, from)[0] == m.request_at(i));
    }
}

/// Every request of the day is for a currency that is in both snapshots.
pub proof fn law_requested_are_matched(m: WorkerModel, request: ActionView)
    requires
        requests_from(m, 0).contains(request),
    ensures
        exists|i: int| m.matched(i) && request == #[trigger] m.request_at(i),
{
    lemma_requests_are_matched(m, 0, request);
}

proof fn lemma_requests_are_matched(m: WorkerModel, from: int, request: ActionView)
    requires
        0 <= from,
        requests_from(m, from).contains(request),
    ensures
        exists|i: int| from <= i && m.matched(i) && request == #[trigger] m.request_at(i),
    decreases m.opening.len() - from,
{
    let all = requests_from(m, from);
    let k = choose|k: int| 0 <= k < all.len() && all[k] == request;
    if from < m.opening.len() {
        let rest = requests_from(m, from + 1);
        if m.matched(from) && k == 0 {
            assert(request == m.request_at(from));
        } else {
            if m.matched(from) {
                assert(rest[k - 1] == request);
            } else {
                assert(rest[k] == request);
            }
            lemma_requests_are_matched(m, from + 1, request);
        }
    }
}

/// A currency of the opening snapshot that is missing from the closing
/// snapshot gets no record: no request of the day bears its identifier.
pub proof fn law_missing_are_skipped(m: WorkerModel, i: int, request: ActionView)
    requires
        m.valid(),
        0 <= i < m.opening.len(),
        !m.matched(i),
        requests_from(m, 0).contains(request),
    ensures
        request is InsertRecord,
        request->InsertRecord_currency_id != m.opening[i].currency_id,
{
    law_requested_are_matched(m, request);
    let j = choose|j: int| m.matched(j) && request == #[trigger] m.request_at(j);
    if i < j {
        assert(m.opening[i].currency_id != m.opening[j].currency_id);
    } else if j < i {
        assert(m.opening[j].currency_id != m.opening[i].currency_id);
    }
}

/// A tick strictly between the boundaries, with the market open, fires no
/// transition: the worker sleeps, and keeps its market state and both
/// snapshots.
pub proof fn law_tick_while_open(m: WorkerModel, now: TimeOfDay)
    requires
        m.market == MarketState::Open,
        !(m.phase is Halted),
        now.within(m.opening_time, m.closing_time),
    ensures
        m.tick(now, false) == (m.with_phase(Phase::Idle), ActionView::Sleep),
{
}

/// Ticks strictly between the boundaries, with the market open, are
/// idempotent: after any number of them the worker is idle with its market
/// state and both snapshots as they were, and every one of them ended in
/// sleep.
pub proof fn law_ticks_while_open(m: WorkerModel, times: Seq<TimeOfDay>)
    requires
        m.market == MarketState::Open,
        m.phase is Idle,
        forall|k: int| 0 <= k < times.len() ==> (#[trigger] times[k]).within(
            m.opening_time,
            m.closing_time,
        ),
    ensures
        after_ticks(m, times) == m,
        forall|k: int|
            0 <= k < times.len() ==> after_ticks(m, times.take(k)).tick(
                #[trigger] times[k],
                false,
            ).1 == ActionView::Sleep,
    decreases times.len(),
{
    if times.len() > 0 {
        let before = times.drop_last();
        law_ticks_while_open(m, before);
        assert(times.last() == times[times.len() - 1]);
        assert(m.with_phase(Phase::Idle) == m);
        assert forall|k: int| 0 <= k < times.len() implies after_ticks(m, times.take(k)).tick(
            #[trigger] times[k],
            false,
        ).1 == ActionView::Sleep by {
            if k < before.len() {
                assert(times.take(k) =~= before.take(k));
                assert(times[k] == before[k]);
            } else {
                assert(times.take(k) =~= before);
            }
        }
    }
}

/// A reading of the currency list that failed is tried again: the market
/// state has not moved, so the next tick at which the boundary still holds
/// asks for the list once more.
pub proof fn law_failed_list_is_retried(m: WorkerModel, now: TimeOfDay)
    requires
        m.phase is AwaitingOpening || m.phase is AwaitingClosing,
        m.opens_at(now) || m.closes_at(now),
    ensures
        m.currencies_listed(None).1 == ActionView::Sleep,
        m.currencies_listed(None).0.market == m.market,
        m.currencies_listed(None).0.opening == m.opening,
        m.currencies_listed(None).0.closing == m.closing,
        m.currencies_listed(None).0.tick(now, false).1 == list_action(),
{
}

/// A halt message that is waiting at a tick stops the worker before any
/// boundary is looked at.
pub proof fn law_halt_stops(m: WorkerModel, now: TimeOfDay)
    ensures
        m.tick(now, true).1 == ActionView::Stop,
        m.tick(now, true).0.phase is Halted,
        m.tick(now, true).0.market == m.market,
        m.tick(now, true).0.opening == m.opening,
        m.tick(now, true).0.closing == m.closing,
{
}

/// A halted worker stays halted: every call answers with `Stop` and leaves
/// the state as it is, so no record is asked for any more.
pub proof fn law_halted_stays_halted(
    m: WorkerModel,
    now: TimeOfDay,
    halt: bool,
    list: Option<Seq<CurrencyData>>,
    record: Option<RecordData>,
    history: Option<Seq<RecordData>>,
    published: bool,
)
    requires
        m.phase is Halted,
    ensures
        m.tick(now, halt) == (m, ActionView::Stop),
        m.currencies_listed(list) == (m, ActionView::Stop),
        m.record_inserted(record) == (m, ActionView::Stop),
        m.history_fetched(history) == (m, ActionView::Stop),
        m.chart_published(published) == (m, ActionView::Stop),
{
}

} // verus!
