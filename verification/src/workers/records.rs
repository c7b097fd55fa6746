//! The end-of-day record worker.
//!
//! Once a day the worker takes a snapshot of every currency when the market
//! opens and another when it closes, stores one record per currency that is
//! in both, and has a chart drawn and published for each stored record.
//!
//! The worker itself does no waiting and no input or output. It is a state
//! machine: each call hands it what happened (a tick of the poll timer, or
//! the outcome of the action it asked for last) and it answers with the next
//! action to perform. The caller owns the loop, the store and the network.

use vstd::prelude::*;

use crate::commands::query::CurrencySort;
use crate::types::value::{sign_of, Value};
use crate::types::{CurrencyData, RecordData, RecordDate};
use crate::workers::chart::{chart_plan, plan_of, ChartPlan, ChartPlanView, HISTORY_LIMIT};
use crate::workers::clock::{utc_time_of_day, TimeOfDay};
use crate::workers::snapshot::{distinct_ids, entries_of, entry_map, lemma_entries_of, Snapshot};

verus! {

/// Seconds between two ticks of the poll timer.
pub const POLL_INTERVAL_SECS: u64 = 10;

/// How many currencies a snapshot holds at most.
pub const CURRENCY_LIMIT: i64 = 200;

/// Whether the trading day is under way.
#[derive(Debug, Clone, Copy, PartialEq, Eq, Structural)]
pub enum MarketState {
    Closed,
    Open,
}

/// What the worker is waiting for.
#[derive(Debug, Clone, Copy)]
pub enum Phase {
    /// The next tick.
    Idle,
    /// The currency list of the opening boundary.
    AwaitingOpening,
    /// The currency list of the closing boundary.
    AwaitingClosing,
    /// The stored record of the currency at `cursor` of the opening snapshot.
    AwaitingInsert { cursor: usize },
    /// The recent history of the currency at `cursor`, whose record was stored.
    AwaitingHistory { cursor: usize, record: RecordData },
    /// The publication of the chart of the currency at `cursor`.
    AwaitingPublish { cursor: usize },
    /// Nothing: the worker was halted.
    Halted,
}

/// What a new record is made of: a currency and its value at opening and at
/// closing.
#[derive(Debug, Clone, Copy)]
pub struct RecordRequest {
    pub currency_id: i64,
    pub opening_value: Value,
    pub closing_value: Value,
}

impl RecordRequest {
    /// The record that the store holds once it has given this request the
    /// identifier `record_id` and the date `record_date`.
    pub fn into_record(self, record_id: i64, record_date: RecordDate) -> (r: RecordData)
        ensures
            r.wf(),
            r.id() == record_id,
            r.date() == record_date,
            r.currency() == self.currency_id,
            r.opening() == self.opening_value,
            r.closing() == self.closing_value,
            r.delta()@ == self.closing_value@ - self.opening_value@,
            r.growth_sign() == sign_of(self.closing_value@ - self.opening_value@),
    {
        RecordData::new(
            record_id,
            record_date,
            self.currency_id,
            self.opening_value,
            self.closing_value,
        )
    }
}

/// What the caller is to do next.
#[derive(Debug)]
pub enum WorkerAction {
    /// Wait for the poll interval, then call `tick`.
    Sleep,
    /// Close the mailbox and return: the worker was halted.
    Stop,
    /// Read the currencies, at most `limit`, sorted by `sort`; then call
    /// `currencies_listed`.
    ListCurrencies { limit: i64, sort: CurrencySort },
    /// Store a record; then call `record_inserted`.
    InsertRecord(RecordRequest),
    /// Read the newest records of a currency, at most `limit`; then call
    /// `history_fetched`.
    FetchHistory { currency_id: i64, limit: i64 },
    /// Draw and publish a chart; then call `chart_published`.
    PublishChart(ChartPlan),
}

/// An action, with texts as sequences of characters and values as the
/// numbers they denote.
pub enum ActionView {
    Sleep,
    Stop,
    ListCurrencies { limit: i64, sort: CurrencySort },
    InsertRecord { currency_id: i64, opening_value: real, closing_value: real },
    FetchHistory { currency_id: i64, limit: i64 },
    PublishChart(ChartPlanView),
}

impl WorkerAction {
    /// The action, with texts as sequences of characters and values as numbers.
    pub open spec fn view(self) -> ActionView {
        match self {
            WorkerAction::Sleep => ActionView::Sleep,
            WorkerAction::Stop => ActionView::Stop,
            WorkerAction::ListCurrencies { limit, sort } => ActionView::ListCurrencies {
                limit,
                sort,
            },
            WorkerAction::InsertRecord(request) => ActionView::InsertRecord {
                currency_id: request.currency_id,
                opening_value: request.opening_value@,
                closing_value: request.closing_value@,
            },
            WorkerAction::FetchHistory { currency_id, limit } => ActionView::FetchHistory {
                currency_id,
                limit,
            },
            WorkerAction::PublishChart(plan) => ActionView::PublishChart(plan@),
        }
    }
}

/// The action that reads the currencies for a snapshot.
pub open spec fn list_action() -> ActionView {
    ActionView::ListCurrencies { limit: CURRENCY_LIMIT, sort: CurrencySort::CurrencyCode }
}

/// The worker's state, as mathematics.
pub struct WorkerModel {
    pub market: MarketState,
    pub phase: Phase,
    pub opening_time: TimeOfDay,
    pub closing_time: TimeOfDay,
    /// The opening snapshot's entries, in order.
    pub opening: Seq<CurrencyData>,
    /// The closing snapshot's entries, in order.
    pub closing: Seq<CurrencyData>,
    /// How many records a chart shows at most.
    pub history_limit: i64,
}

impl WorkerModel {
    /// The state in which a worker starts: the market closed, no snapshot
    /// taken, waiting for the first tick.
    pub open spec fn initial(opening_time: TimeOfDay, closing_time: TimeOfDay) -> WorkerModel {
        WorkerModel {
            market: MarketState::Closed,
            phase: Phase::Idle,
            opening_time,
            closing_time,
            opening: Seq::empty(),
            closing: Seq::empty(),
            history_limit: HISTORY_LIMIT,
        }
    }

    /// The state with another phase.
    pub open spec fn with_phase(self, phase: Phase) -> WorkerModel {
        WorkerModel { phase, ..self }
    }

    /// The position in the opening snapshot that the worker is busy with.
    pub open spec fn cursor(self) -> Option<usize> {
        match self.phase {
            Phase::AwaitingInsert { cursor } => Some(cursor),
            Phase::AwaitingHistory { cursor, .. } => Some(cursor),
            Phase::AwaitingPublish { cursor } => Some(cursor),
            _ => None,
        }
    }

    /// Whether the currency at position `i` of the opening snapshot is in
    /// the closing snapshot too.
    pub open spec fn matched(self, i: int) -> bool {
        0 <= i < self.opening.len() && entry_map(self.closing).contains_key(
            self.opening[i].currency_id,
        )
    }

    /// A state is valid when neither snapshot holds an identifier twice,
    /// the opening snapshot fits in memory, and the currency that the
    /// worker is busy with is in both snapshots.
    pub open spec fn valid(self) -> bool {
        &&& self.opening.len() <= usize::MAX
        &&& distinct_ids(self.opening)
        &&& distinct_ids(self.closing)
        &&& self.cursor() is Some ==> self.matched(self.cursor()->0 as int)
        &&& self.phase matches Phase::AwaitingHistory { record, .. } ==> record.wf()
    }

    /// Whether the market opens at a tick at `now`: it is closed, and `now`
    /// is strictly after the opening time and strictly before the closing
    /// time.
    pub open spec fn opens_at(self, now: TimeOfDay) -> bool {
        self.market == MarketState::Closed && now.within(self.opening_time, self.closing_time)
    }

    /// Whether the market closes at a tick at `now`: it is open, and `now`
    /// is strictly after the closing time.
    pub open spec fn closes_at(self, now: TimeOfDay) -> bool {
        self.market == MarketState::Open && self.closing_time.precedes(now)
    }

    /// The first position at or after `from` whose currency is in both
    /// snapshots, or the length of the opening snapshot where there is none.
    pub open spec fn next_match(self, from: int) -> int
        decreases self.opening.len() - from,
    {
        if from < 0 || from >= self.opening.len() {
            self.opening.len() as int
        } else if self.matched(from) {
            from
        } else {
            self.next_match(from + 1)
        }
    }

    /// The request for the record of the currency at position `i`: its
    /// value in the opening snapshot and its value in the closing snapshot.
    pub open spec fn request_at(self, i: int) -> ActionView {
        let id = self.opening[i].currency_id;
        ActionView::InsertRecord {
            currency_id: id,
            opening_value: self.opening[i].value_spec(),
            closing_value: entry_map(self.closing)[id].value_spec(),
        }
    }

    /// Goes on with the day's records from position `from`: asks for the
    /// record of the next currency that is in both snapshots, and sleeps
    /// where none is left.
    pub open spec fn resume(self, from: int) -> (WorkerModel, ActionView) {
        let next = self.next_match(from);
        if next < self.opening.len() {
            (self.with_phase(Phase::AwaitingInsert { cursor: next as usize }), self.request_at(next))
        } else {
            (self.with_phase(Phase::Idle), ActionView::Sleep)
        }
    }

    /// A tick of the poll timer at the time `now`, with `halt` telling
    /// whether a halt message was waiting.
    ///
    /// A halted worker stays halted, and a halt message halts it. Otherwise
    /// the worker drops what the last tick left unfinished, and asks for the
    /// currency list where the market opens or closes at `now`.
    pub open spec fn tick(self, now: TimeOfDay, halt: bool) -> (WorkerModel, ActionView) {
        if self.phase is Halted {
            (self, ActionView::Stop)
        } else if halt {
            (self.with_phase(Phase::Halted), ActionView::Stop)
        } else if self.opens_at(now) {
            (self.with_phase(Phase::AwaitingOpening), list_action())
        } else if self.closes_at(now) {
            (self.with_phase(Phase::AwaitingClosing), list_action())
        } else {
            (self.with_phase(Phase::Idle), ActionView::Sleep)
        }
    }

    /// The currency list has been read (`Some`), or reading it failed
    /// (`None`).
    ///
    /// At the opening boundary the list becomes the opening snapshot and
    /// the market opens. At the closing boundary the list becomes the
    /// closing snapshot, the market closes and the day's records begin. A
    /// failure changes nothing: the boundary is tried again at the next tick.
    pub open spec fn currencies_listed(self, result: Option<Seq<CurrencyData>>) -> (
        WorkerModel,
        ActionView,
    ) {
        match self.phase {
            Phase::Halted => (self, ActionView::Stop),
            Phase::AwaitingOpening => match result {
                Some(list) => (
                    WorkerModel {
                        market: MarketState::Open,
                        phase: Phase::Idle,
                        opening: entries_of(list),
                        ..self
                    },
                    ActionView::Sleep,
                ),
                None => (self.with_phase(Phase::Idle), ActionView::Sleep),
            },
            Phase::AwaitingClosing => match result {
                Some(list) => WorkerModel {
                    market: MarketState::Closed,
                    closing: entries_of(list),
                    ..self
                }.resume(0),
                None => (self.with_phase(Phase::Idle), ActionView::Sleep),
            },
            _ => (self, ActionView::Sleep),
        }
    }

    /// The record has been stored (`Some`), or storing it failed (`None`).
    ///
    /// For a stored record the worker asks for the currency's history, to
    /// chart it. After a failure it goes on with the next currency.
    pub open spec fn record_inserted(self, result: Option<RecordData>) -> (
        WorkerModel,
        ActionView,
    ) {
        match self.phase {
            Phase::Halted => (self, ActionView::Stop),
            Phase::AwaitingInsert { cursor } => match result {
                Some(record) => (
                    self.with_phase(Phase::AwaitingHistory { cursor, record }),
                    ActionView::FetchHistory {
                        currency_id: self.opening[cursor as int].currency_id,
                        limit: self.history_limit,
                    },
                ),
                None => self.resume(cursor + 1),
            },
            _ => (self, ActionView::Sleep),
        }
    }

    /// The currency's recent history has been read (`Some`), newest record
    /// first, or reading it failed (`None`).
    ///
    /// With the history the worker asks for the chart to be drawn and
    /// published. After a failure it goes on with the next currency.
    pub open spec fn history_fetched(self, result: Option<Seq<RecordData>>) -> (
        WorkerModel,
        ActionView,
    ) {
        match self.phase {
            Phase::Halted => (self, ActionView::Stop),
            Phase::AwaitingHistory { cursor, record } => match result {
                Some(history) => (
                    self.with_phase(Phase::AwaitingPublish { cursor }),
                    ActionView::PublishChart(
                        plan_of(self.opening[cursor as int], record.id(), history),
                    ),
                ),
                None => self.resume(cursor + 1),
            },
            _ => (self, ActionView::Sleep),
        }
    }

    /// The chart has been published (`ok`), or drawing or publishing it
    /// failed. Either way the worker goes on with the next currency.
    pub open spec fn chart_published(self, ok: bool) -> (WorkerModel, ActionView) {
        match self.phase {
            Phase::Halted => (self, ActionView::Stop),
            Phase::AwaitingPublish { cursor } => self.resume(cursor + 1),
            _ => (self, ActionView::Sleep),
        }
    }

    /// `next_match` gives a position in both snapshots, or the end.
    pub proof fn lemma_next_match(self, from: int)
        requires
            0 <= from,
        ensures
            from <= self.next_match(from) || self.next_match(from) == self.opening.len(),
            self.next_match(from) <= self.opening.len(),
            self.next_match(from) < self.opening.len() ==> self.matched(self.next_match(from)),
            forall|k: int| from <= k < self.next_match(from) ==> !self.matched(k),
        decreases self.opening.len() - from,
    {
        if from < self.opening.len() && !self.matched(from) {
            self.lemma_next_match(from + 1);
        }
    }

    /// Going on with the day's records keeps a state valid.
    pub proof fn lemma_resume_valid(self, from: int)
        requires
            self.valid(),
            0 <= from,
        ensures
            self.resume(from).0.valid(),
    {
        self.lemma_next_match(from);
    }
}

/// The worker: the market state, the two snapshots of the day, and what it
/// is waiting for.
#[derive(Debug)]
pub struct RecordWorker {
    market: MarketState,
    phase: Phase,
    opening_time: TimeOfDay,
    closing_time: TimeOfDay,
    opening_data: Snapshot,
    closing_data: Snapshot,
    history_limit: i64,
}

impl RecordWorker {
    /// The worker's state is always valid.
    #[verifier::type_invariant]
    pub closed spec fn wf(self) -> bool {
        &&& self.opening_data.wf()
        &&& self.closing_data.wf()
        &&& self@.valid()
    }

    /// The worker's state, as mathematics.
    pub closed spec fn view(self) -> WorkerModel {
        WorkerModel {
            market: self.market,
            phase: self.phase,
            opening_time: self.opening_time,
            closing_time: self.closing_time,
            opening: self.opening_data.entries(),
            closing: self.closing_data.entries(),
            history_limit: self.history_limit,
        }
    }

    /// A well-formed worker is in a valid state.
    pub proof fn lemma_valid(self)
        requires
            self.wf(),
        ensures
            self@.valid(),
    {
    }

    /// A worker for a trading day from 06:00:00 to 18:00:30.
    pub fn new() -> (w: RecordWorker)
        ensures
            w.wf(),
            w@ == WorkerModel::initial(
                TimeOfDay { secs: 21_600, frac: 0 },
                TimeOfDay { secs: 64_830, frac: 0 },
            ),
    {
        RecordWorker::with_boundaries(
            TimeOfDay { secs: 21_600, frac: 0 },
            TimeOfDay { secs: 64_830, frac: 0 },
        )
    }

    /// A worker for a trading day between the given times.
    pub fn with_boundaries(opening_time: TimeOfDay, closing_time: TimeOfDay) -> (w: RecordWorker)
        ensures
            w.wf(),
            w@ == WorkerModel::initial(opening_time, closing_time),
    {
        RecordWorker {
            market: MarketState::Closed,
            phase: Phase::Idle,
            opening_time,
            closing_time,
            opening_data: Snapshot::new(),
            closing_data: Snapshot::new(),
            history_limit: HISTORY_LIMIT,
        }
    }

    /// The worker with another number of records for its charts.
    pub fn with_history_limit(self, limit: i64) -> (w: RecordWorker)
        ensures
            w.wf(),
            w@ == (WorkerModel { history_limit: limit, ..self@ }),
    {
        proof {
            use_type_invariant(&self);
        }
        RecordWorker {
            market: self.market,
            phase: self.phase,
            opening_time: self.opening_time,
            closing_time: self.closing_time,
            opening_data: self.opening_data,
            closing_data: self.closing_data,
            history_limit: limit,
        }
    }

    /// Whether the trading day is under way.
    pub fn is_open(&self) -> (b: bool)
        ensures
            b == (self@.market == MarketState::Open),
    {
        match self.market {
            MarketState::Open => true,
            MarketState::Closed => false,
        }
    }

    /// Whether the worker was halted.
    pub fn is_halted(&self) -> (b: bool)
        ensures
            b == (self@.phase is Halted),
    {
        match self.phase {
            Phase::Halted => true,
            _ => false,
        }
    }

    /// What the worker is waiting for.
    pub fn phase(&self) -> (p: Phase)
        ensures
            p == self@.phase,
    {
        self.phase
    }

    /// The worker in another phase.
    fn into_phase(self, phase: Phase) -> (w: RecordWorker)
        requires
            self@.with_phase(phase).valid(),
        ensures
            w.wf(),
            w@ == self@.with_phase(phase),
    {
        proof {
            use_type_invariant(&self);
        }
        RecordWorker {
            market: self.market,
            phase,
            opening_time: self.opening_time,
            closing_time: self.closing_time,
            opening_data: self.opening_data,
            closing_data: self.closing_data,
            history_limit: self.history_limit,
        }
    }

    /// Goes on with the day's records from position `from`.
    fn resume(self, from: usize) -> (r: (RecordWorker, WorkerAction))
        ensures
            r.0.wf(),
            r.0@ == self@.resume(from as int).0,
            r.1@ == self@.resume(from as int).1,
    {
        proof {
            use_type_invariant(&self);
            self@.lemma_next_match(from as int);
            self@.lemma_resume_valid(from as int);
        }
        let n = self.opening_data.len();
        let mut i: usize = from;
        while i < n
            invariant
                self.wf(),
                n == self@.opening.len(),
                from <= i,
                i <= n || i == from,
                self@.next_match(from as int) == self@.next_match(i as int),
            decreases n - i,
        {
            let opening = self.opening_data.entry(i);
            let id = opening.currency_id;
            match self.closing_data.get(id) {
                Some(closing) => {
                    let request = RecordRequest {
                        currency_id: id,
                        opening_value: opening.value(),
                        closing_value: closing.value(),
                    };
                    assert(self@.matched(i as int));
                    let w = self.into_phase(Phase::AwaitingInsert { cursor: i });
                    return (w, WorkerAction::InsertRecord(request));
                },
                None => {
                    assert(!self@.matched(i as int));
                },
            }
            i = i + 1;
        }
        let w = self.into_phase(Phase::Idle);
        (w, WorkerAction::Sleep)
    }

    /// A tick of the poll timer at the time `now`, with `halt` telling
    /// whether a halt message was waiting.
    pub fn tick(self, now: TimeOfDay, halt: bool) -> (r: (RecordWorker, WorkerAction))
        ensures
            r.0.wf(),
            r.0@ == self@.tick(now, halt).0,
            r.1@ == self@.tick(now, halt).1,
    {
        proof {
            use_type_invariant(&self);
        }
        if self.is_halted() {
            (self, WorkerAction::Stop)
        } else if halt {
            (self.into_phase(Phase::Halted), WorkerAction::Stop)
        } else if !self.is_open() && now.is_after(&self.opening_time) && now.is_before(
            &self.closing_time,
        ) {
            (
                self.into_phase(Phase::AwaitingOpening),
                WorkerAction::ListCurrencies {
                    limit: CURRENCY_LIMIT,
                    sort: CurrencySort::CurrencyCode,
                },
            )
        } else if self.is_open() && now.is_after(&self.closing_time) {
            (
                self.into_phase(Phase::AwaitingClosing),
                WorkerAction::ListCurrencies {
                    limit: CURRENCY_LIMIT,
                    sort: CurrencySort::CurrencyCode,
                },
            )
        } else {
            (self.into_phase(Phase::Idle), WorkerAction::Sleep)
        }
    }

    /// A tick of the poll timer at the present time of day in UTC: what
    /// `tick` gives at a time within the day, which the clock says. Reading
    /// the clock panics on a machine whose clock stands before the year 1970
    /// or beyond the dates that `chrono` can hold.
    pub fn tick_now(self, halt: bool) -> (r: (RecordWorker, WorkerAction))
        ensures
            r.0.wf(),
            exists|now: TimeOfDay|
                now.secs < 86_400 && now.frac < 2_000_000_000 && r.0@ == (#[trigger] self@.tick(
                    now,
                    halt,
                )).0 && r.1@ == self@.tick(now, halt).1,
    {
        let now = utc_time_of_day();
        let ghost before = self@;
        let r = self.tick(now, halt);
        assert(now.secs < 86_400 && now.frac < 2_000_000_000 && r.0@ == before.tick(now, halt).0
            && r.1@ == before.tick(now, halt).1);
        r
    }

    /// The currency list has been read (`Some`), or reading it failed
    /// (`None`).
    pub fn currencies_listed(self, result: Option<Vec<CurrencyData>>) -> (r: (
        RecordWorker,
        WorkerAction,
    ))
        ensures
            r.0.wf(),
            r.0@ == self@.currencies_listed(
                match result {
                    Some(list) => Some(list@),
                    None => None,
                },
            ).0,
            r.1@ == self@.currencies_listed(
                match result {
                    Some(list) => Some(list@),
                    None => None,
                },
            ).1,
    {
        proof {
            use_type_invariant(&self);
        }
        match self.phase {
            Phase::Halted => (self, WorkerAction::Stop),
            Phase::AwaitingOpening => match result {
                Some(list) => {
                    proof {
                        lemma_entries_of(list@);
                        assert(list@.len() == list.len());
                    }
                    let opening_data = Snapshot::from_list(&list);
                    let w = RecordWorker {
                        market: MarketState::Open,
                        phase: Phase::Idle,
                        opening_time: self.opening_time,
                        closing_time: self.closing_time,
                        opening_data,
                        closing_data: self.closing_data,
                        history_limit: self.history_limit,
                    };
                    (w, WorkerAction::Sleep)
                },
                None => (self.into_phase(Phase::Idle), WorkerAction::Sleep),
            },
            Phase::AwaitingClosing => match result {
                Some(list) => {
                    proof {
                        lemma_entries_of(list@);
                    }
                    let w = RecordWorker {
                        market: MarketState::Closed,
                        phase: Phase::AwaitingClosing,
                        opening_time: self.opening_time,
                        closing_time: self.closing_time,
                        opening_data: self.opening_data,
                        closing_data: Snapshot::from_list(&list),
                        history_limit: self.history_limit,
                    };
                    w.resume(0)
                },
                None => (self.into_phase(Phase::Idle), WorkerAction::Sleep),
            },
            _ => (self, WorkerAction::Sleep),
        }
    }

    /// The record has been stored (`Some`), or storing it failed (`None`).
    pub fn record_inserted(self, result: Option<RecordData>) -> (r: (RecordWorker, WorkerAction))
        ensures
            r.0.wf(),
            r.0@ == self@.record_inserted(result).0,
            r.1@ == self@.record_inserted(result).1,
    {
        proof {
            use_type_invariant(&self);
        }
        match self.phase {
            Phase::Halted => (self, WorkerAction::Stop),
            Phase::AwaitingInsert { cursor } => match result {
                Some(record) => {
                    proof {
                        use_type_invariant(&record);
                    }
                    let currency_id = self.opening_data.entry(cursor).currency_id;
                    let limit = self.history_limit;
                    (
                        self.into_phase(Phase::AwaitingHistory { cursor, record }),
                        WorkerAction::FetchHistory { currency_id, limit },
                    )
                },
                None => {
                    assert(self@.matched(cursor as int));
                    self.resume(cursor + 1)
                },
            },
            _ => (self, WorkerAction::Sleep),
        }
    }

    /// The currency's recent history has been read (`Some`), newest record
    /// first, or reading it failed (`None`).
    pub fn history_fetched(self, result: Option<Vec<RecordData>>) -> (r: (
        RecordWorker,
        WorkerAction,
    ))
        ensures
            r.0.wf(),
            r.0@ == self@.history_fetched(
                match result {
                    Some(history) => Some(history@),
                    None => None,
                },
            ).0,
            r.1@ == self@.history_fetched(
                match result {
                    Some(history) => Some(history@),
                    None => None,
                },
            ).1,
    {
        proof {
            use_type_invariant(&self);
        }
        match self.phase {
            Phase::Halted => (self, WorkerAction::Stop),
            Phase::AwaitingHistory { cursor, record } => match result {
                Some(history) => {
                    let plan = chart_plan(
                        self.opening_data.entry(cursor),
                        record.record_id(),
                        &history,
                    );
                    (
                        self.into_phase(Phase::AwaitingPublish { cursor }),
                        WorkerAction::PublishChart(plan),
                    )
                },
                None => {
                    assert(self@.matched(cursor as int));
                    self.resume(cursor + 1)
                },
            },
            _ => (self, WorkerAction::Sleep),
        }
    }

    /// The chart has been published (`ok`), or drawing or publishing it
    /// failed.
    pub fn chart_published(self, ok: bool) -> (r: (RecordWorker, WorkerAction))
        ensures
            r.0.wf(),
            r.0@ == self@.chart_published(ok).0,
            r.1@ == self@.chart_published(ok).1,
    {
        proof {
            use_type_invariant(&self);
        }
        match self.phase {
            Phase::Halted => (self, WorkerAction::Stop),
            Phase::AwaitingPublish { cursor } => {
                assert(self@.matched(cursor as int));
                self.resume(cursor + 1)
            },
            _ => (self, WorkerAction::Sleep),
        }
    }
}

} // verus!
