use chrono::Timelike;
use economist_bot::commands::query::CurrencySort;
use economist_bot::types::value::Value;
use economist_bot::types::{CurrencyData, RecordData, RecordDate};
use economist_bot::workers::chart::Trend;
use economist_bot::workers::clock::TimeOfDay;
use economist_bot::workers::records::{
    Phase, RecordRequest, RecordWorker, WorkerAction, CURRENCY_LIMIT, POLL_INTERVAL_SECS,
};

fn at(hour: u32, min: u32, sec: u32) -> TimeOfDay {
    TimeOfDay::from_hms(hour, min, sec).unwrap()
}

fn money(id: i64, code: &str, reserves: i64, circulation: i64) -> CurrencyData {
    CurrencyData {
        currency_id: id,
        currency_name: format!("Currency {}", code),
        currency_code: String::from(code),
        circulation,
        reserves,
        owner: String::from("owner"),
        state: String::from("State"),
    }
}

fn float_of(v: &Value) -> f64 {
    v.numerator() as f64 / v.denominator() as f64
}

fn today() -> RecordDate {
    RecordDate { year: 2023, month: 6, day: 1 }
}

fn is_list(action: &WorkerAction) -> bool {
    matches!(action, WorkerAction::ListCurrencies { limit: 200, sort: CurrencySort::CurrencyCode })
}

fn is_sleep(action: &WorkerAction) -> bool {
    matches!(action, WorkerAction::Sleep)
}

fn is_stop(action: &WorkerAction) -> bool {
    matches!(action, WorkerAction::Stop)
}

fn request_of(action: WorkerAction) -> RecordRequest {
    match action {
        WorkerAction::InsertRecord(request) => request,
        other => panic!("expected a record request, got {:?}", other),
    }
}

/// A worker whose market is open with the given opening snapshot.
fn opened(opening: Vec<CurrencyData>) -> RecordWorker {
    let worker = RecordWorker::new();
    let (worker, action) = worker.tick(at(9, 0, 0), false);
    assert!(is_list(&action));
    let (worker, action) = worker.currencies_listed(Some(opening));
    assert!(is_sleep(&action));
    assert!(worker.is_open());
    worker
}

/// A worker that has just read the closing list, with its first action.
fn closed(opening: Vec<CurrencyData>, closing: Vec<CurrencyData>) -> (RecordWorker, WorkerAction) {
    let worker = opened(opening);
    let (worker, action) = worker.tick(at(18, 0, 31), false);
    assert!(is_list(&action));
    let (worker, action) = worker.currencies_listed(Some(closing));
    assert!(!worker.is_open());
    (worker, action)
}

/// Takes one currency through a stored record, its history and its chart.
fn succeed(worker: RecordWorker, request: RecordRequest, record_id: i64) -> (RecordWorker, WorkerAction) {
    let record = request.into_record(record_id, today());
    let (worker, action) = worker.record_inserted(Some(record));
    match action {
        WorkerAction::FetchHistory { currency_id, limit } => {
            assert_eq!(currency_id, request.currency_id);
            assert_eq!(limit, 14);
        }
        other => panic!("expected a history request, got {:?}", other),
    }
    let (worker, action) = worker.history_fetched(Some(vec![record]));
    match action {
        WorkerAction::PublishChart(plan) => {
            assert_eq!(plan.currency_id, request.currency_id);
            assert_eq!(plan.record_id, record_id);
        }
        other => panic!("expected a chart, got {:?}", other),
    }
    worker.chart_published(true)
}

#[test]
fn constants_of_the_worker() {
    assert_eq!(POLL_INTERVAL_SECS, 10);
    assert_eq!(CURRENCY_LIMIT, 200);
}

#[test]
fn worker_starts_closed_and_idle() {
    let worker = RecordWorker::new();
    assert!(!worker.is_open());
    assert!(!worker.is_halted());
    assert!(matches!(worker.phase(), Phase::Idle));
}

#[test]
fn market_opens_strictly_between_the_boundaries() {
    for (now, opens) in [
        (at(0, 0, 0), false),
        (at(5, 59, 59), false),
        (at(6, 0, 0), false),
        (TimeOfDay { secs: 21_600, frac: 1 }, true),
        (at(6, 0, 1), true),
        (at(12, 0, 0), true),
        (at(18, 0, 29), true),
        (TimeOfDay { secs: 64_829, frac: 999_999_999 }, true),
        (at(18, 0, 30), false),
        (TimeOfDay { secs: 64_830, frac: 1 }, false),
        (at(23, 59, 59), false),
    ] {
        let (worker, action) = RecordWorker::new().tick(now, false);
        assert_eq!(is_list(&action), opens, "at {:?}", now);
        assert_eq!(is_sleep(&action), !opens, "at {:?}", now);
        assert!(!worker.is_open());
        if opens {
            assert!(matches!(worker.phase(), Phase::AwaitingOpening));
        } else {
            assert!(matches!(worker.phase(), Phase::Idle));
        }
    }
}

#[test]
fn market_closes_strictly_after_the_closing_boundary() {
    for (now, closes) in [
        (at(0, 0, 0), false),
        (at(6, 0, 1), false),
        (at(18, 0, 30), false),
        (TimeOfDay { secs: 64_830, frac: 1 }, true),
        (at(18, 0, 31), true),
        (at(23, 59, 59), true),
    ] {
        let worker = opened(vec![money(1, "AAA", 1, 1)]);
        let (worker, action) = worker.tick(now, false);
        assert_eq!(is_list(&action), closes, "at {:?}", now);
        assert_eq!(is_sleep(&action), !closes, "at {:?}", now);
        assert!(worker.is_open());
    }
}

#[test]
fn custom_boundaries_are_kept() {
    let worker = RecordWorker::with_boundaries(at(1, 0, 0), at(2, 0, 0));
    let (worker, action) = worker.tick(at(9, 0, 0), false);
    assert!(is_sleep(&action));
    let (_, action) = worker.tick(at(1, 30, 0), false);
    assert!(is_list(&action));
    let never = RecordWorker::with_boundaries(at(2, 0, 0), at(1, 0, 0));
    let (never, action) = never.tick(at(1, 30, 0), false);
    assert!(is_sleep(&action));
    let (_, action) = never.tick(at(3, 0, 0), false);
    assert!(is_sleep(&action));
}

#[test]
fn repeated_ticks_while_open_do_nothing() {
    let mut worker = opened(vec![money(1, "AAA", 100, 50)]);
    for second in 0..50 {
        let (next, action) = worker.tick(at(9, 0, second), false);
        assert!(is_sleep(&action));
        assert!(next.is_open());
        assert!(matches!(next.phase(), Phase::Idle));
        worker = next;
    }
    let (worker, action) = worker.tick(at(18, 0, 31), false);
    assert!(is_list(&action));
    let (_, action) = worker.currencies_listed(Some(vec![money(1, "AAA", 150, 50)]));
    let request = request_of(action);
    assert_eq!(request.currency_id, 1);
    assert_eq!(float_of(&request.opening_value), 2.0);
    assert_eq!(float_of(&request.closing_value), 3.0);
}

#[test]
fn repeated_ticks_after_closing_make_no_second_cycle() {
    let (worker, action) = closed(vec![money(1, "AAA", 1, 1)], vec![money(1, "AAA", 2, 1)]);
    let (mut worker, action) = succeed(worker, request_of(action), 1);
    assert!(is_sleep(&action));
    for second in 31..59 {
        let (next, action) = worker.tick(at(18, 0, second), false);
        assert!(is_sleep(&action));
        assert!(!next.is_open());
        worker = next;
    }
}

#[test]
fn failed_opening_list_is_retried_at_the_next_tick() {
    let worker = RecordWorker::new();
    let (worker, action) = worker.tick(at(9, 0, 0), false);
    assert!(is_list(&action));
    let (worker, action) = worker.currencies_listed(None);
    assert!(is_sleep(&action));
    assert!(!worker.is_open());
    let (worker, action) = worker.tick(at(9, 0, 10), false);
    assert!(is_list(&action));
    let (worker, action) = worker.currencies_listed(Some(vec![money(1, "AAA", 1, 1)]));
    assert!(is_sleep(&action));
    assert!(worker.is_open());
}

#[test]
fn failed_closing_list_is_retried_at_the_next_tick() {
    let worker = opened(vec![money(1, "AAA", 100, 50)]);
    let (worker, action) = worker.tick(at(19, 0, 0), false);
    assert!(is_list(&action));
    let (worker, action) = worker.currencies_listed(None);
    assert!(is_sleep(&action));
    assert!(worker.is_open());
    let (worker, action) = worker.tick(at(19, 0, 10), false);
    assert!(is_list(&action));
    let (worker, action) = worker.currencies_listed(Some(vec![money(1, "AAA", 150, 50)]));
    assert!(!worker.is_open());
    assert_eq!(request_of(action).currency_id, 1);
}

#[test]
fn opening_never_taken_means_no_records_that_day() {
    let worker = RecordWorker::new();
    let (worker, _) = worker.tick(at(9, 0, 0), false);
    let (worker, _) = worker.currencies_listed(None);
    let (worker, action) = worker.tick(at(19, 0, 0), false);
    assert!(is_sleep(&action));
    assert!(!worker.is_open());
}

#[test]
fn end_to_end_day_of_two_currencies() {
    let opening = vec![money(1, "AAA", 100, 50), money(2, "BBB", 0, 10)];
    let closing = vec![money(1, "AAA", 150, 50), money(2, "BBB", 0, 10)];
    let (worker, action) = closed(opening, closing);

    let first = request_of(action);
    assert_eq!(first.currency_id, 1);
    assert_eq!(float_of(&first.opening_value), 2.0);
    assert_eq!(float_of(&first.closing_value), 3.0);
    let record_a = first.into_record(10, today());
    assert_eq!(float_of(&record_a.opening_value()), 2.0);
    assert_eq!(float_of(&record_a.closing_value()), 3.0);
    let delta = record_a.delta_value();
    assert_eq!(delta.numerator() as f64 / delta.denominator() as f64, 1.0);
    assert_eq!(record_a.growth(), 1);

    let (worker, action) = succeed(worker, first, 10);
    let second = request_of(action);
    assert_eq!(second.currency_id, 2);
    assert_eq!(float_of(&second.opening_value), 0.0);
    assert_eq!(float_of(&second.closing_value), 0.0);
    let record_b = second.into_record(11, today());
    assert_eq!(float_of(&record_b.opening_value()), 0.0);
    assert_eq!(float_of(&record_b.closing_value()), 0.0);
    let delta = record_b.delta_value();
    assert_eq!(delta.numerator() as f64 / delta.denominator() as f64, 0.0);
    assert_eq!(record_b.growth(), 0);

    let (worker, action) = succeed(worker, second, 11);
    assert!(is_sleep(&action));
    assert!(matches!(worker.phase(), Phase::Idle));
    assert!(!worker.is_open());
}

#[test]
fn currency_missing_at_closing_gets_no_record() {
    let opening = vec![money(1, "AAA", 1, 1), money(2, "BBB", 2, 1), money(3, "CCC", 3, 1)];
    let closing = vec![money(1, "AAA", 1, 1), money(3, "CCC", 6, 1)];
    let (worker, action) = closed(opening, closing);
    let first = request_of(action);
    assert_eq!(first.currency_id, 1);
    let (worker, action) = succeed(worker, first, 1);
    let second = request_of(action);
    assert_eq!(second.currency_id, 3);
    assert_eq!(float_of(&second.opening_value), 3.0);
    assert_eq!(float_of(&second.closing_value), 6.0);
    let (_, action) = succeed(worker, second, 2);
    assert!(is_sleep(&action));
}

#[test]
fn currency_new_at_closing_gets_no_record() {
    let opening = vec![money(1, "AAA", 1, 1)];
    let closing = vec![money(9, "NEW", 1, 1), money(1, "AAA", 2, 1)];
    let (worker, action) = closed(opening, closing);
    let first = request_of(action);
    assert_eq!(first.currency_id, 1);
    assert_eq!(float_of(&first.closing_value), 2.0);
    let (_, action) = succeed(worker, first, 1);
    assert!(is_sleep(&action));
}

#[test]
fn empty_snapshots_make_no_records() {
    let (worker, action) = closed(Vec::new(), vec![money(1, "AAA", 1, 1)]);
    assert!(is_sleep(&action));
    assert!(matches!(worker.phase(), Phase::Idle));
    let (_, action) = closed(vec![money(1, "AAA", 1, 1)], Vec::new());
    assert!(is_sleep(&action));
    let (_, action) = closed(Vec::new(), Vec::new());
    assert!(is_sleep(&action));
}

#[test]
fn failed_insert_leaves_the_others_their_records() {
    let opening = vec![money(1, "AAA", 1, 1), money(2, "BBB", 2, 1), money(3, "CCC", 3, 1)];
    let closing = vec![money(1, "AAA", 2, 1), money(2, "BBB", 4, 1), money(3, "CCC", 6, 1)];
    for failing in 1..=3 {
        let (mut worker, mut action) = closed(opening.clone(), closing.clone());
        let mut asked = Vec::new();
        let mut stored = Vec::new();
        while !is_sleep(&action) {
            let request = request_of(action);
            asked.push(request.currency_id);
            if request.currency_id == failing {
                let (w, a) = worker.record_inserted(None);
                worker = w;
                action = a;
            } else {
                stored.push(request.currency_id);
                let (w, a) = succeed(worker, request, 100 + request.currency_id);
                worker = w;
                action = a;
            }
        }
        assert_eq!(asked, vec![1, 2, 3]);
        let expected: Vec<i64> = vec![1, 2, 3].into_iter().filter(|id| *id != failing).collect();
        assert_eq!(stored, expected);
    }
}

#[test]
fn failed_history_or_chart_leaves_the_cycle_going() {
    let opening = vec![money(1, "AAA", 1, 1), money(2, "BBB", 2, 1), money(3, "CCC", 3, 1)];
    let closing = opening.clone();
    let (worker, action) = closed(opening, closing);

    let first = request_of(action);
    assert_eq!(first.currency_id, 1);
    let (worker, action) = worker.record_inserted(Some(first.into_record(1, today())));
    assert!(matches!(action, WorkerAction::FetchHistory { currency_id: 1, limit: 14 }));
    let (worker, action) = worker.history_fetched(None);

    let second = request_of(action);
    assert_eq!(second.currency_id, 2);
    let record = second.into_record(2, today());
    let (worker, _) = worker.record_inserted(Some(record));
    let (worker, action) = worker.history_fetched(Some(vec![record]));
    assert!(matches!(action, WorkerAction::PublishChart(_)));
    let (worker, action) = worker.chart_published(false);

    let third = request_of(action);
    assert_eq!(third.currency_id, 3);
    let (_, action) = succeed(worker, third, 3);
    assert!(is_sleep(&action));
}

#[test]
fn chart_of_a_stored_record() {
    let opening = vec![money(7, "AAA", 100, 50)];
    let closing = vec![money(7, "AAA", 150, 50)];
    let (worker, action) = closed(opening, closing);
    let request = request_of(action);
    let record = request.into_record(42, today());
    let older = RecordData::new(41, RecordDate { year: 2023, month: 5, day: 31 }, 7, Value::of(2, 1), Value::of(2, 1));
    let (worker, _) = worker.record_inserted(Some(record));
    let (_, action) = worker.history_fetched(Some(vec![record, older]));
    match action {
        WorkerAction::PublishChart(plan) => {
            assert_eq!(plan.currency_id, 7);
            assert_eq!(plan.record_id, 42);
            assert_eq!(plan.file_name, "data/00007.png");
            assert_eq!(plan.publish_url, "https://economist-image-server.shuttleapp.rs/00007/00042");
            assert_eq!(plan.caption, "Currency trend for Currency AAA");
            assert_eq!(plan.value_axis_label, "Currency value (gold ingots per AAA)");
            assert_eq!(plan.trend, Trend::Gain);
            assert_eq!(plan.upper_bound.numerator() as f64 / plan.upper_bound.denominator() as f64, 4.0);
            assert_eq!(plan.date_range, Some((RecordDate { year: 2023, month: 5, day: 31 }, today())));
            assert_eq!(plan.points.len(), 2);
            assert_eq!(plan.points[0].date, today());
            assert_eq!(float_of(&plan.points[0].closing_value), 3.0);
            assert_eq!(float_of(&plan.points[1].closing_value), 2.0);
        }
        other => panic!("expected a chart, got {:?}", other),
    }
}

#[test]
fn halt_stops_before_any_boundary_is_looked_at() {
    let worker = RecordWorker::new();
    let (worker, action) = worker.tick(at(9, 0, 0), true);
    assert!(is_stop(&action));
    assert!(worker.is_halted());
    assert!(!worker.is_open());

    let worker = opened(vec![money(1, "AAA", 1, 1)]);
    let (worker, action) = worker.tick(at(19, 0, 0), true);
    assert!(is_stop(&action));
    assert!(worker.is_halted());
}

#[test]
fn halted_worker_answers_stop_to_everything() {
    let worker = opened(vec![money(1, "AAA", 1, 1)]);
    let (worker, _) = worker.tick(at(9, 0, 10), true);
    let (worker, action) = worker.tick(at(19, 0, 0), false);
    assert!(is_stop(&action));
    let (worker, action) = worker.tick(at(19, 0, 0), true);
    assert!(is_stop(&action));
    let (worker, action) = worker.currencies_listed(Some(vec![money(1, "AAA", 2, 1)]));
    assert!(is_stop(&action));
    let (worker, action) = worker.currencies_listed(None);
    assert!(is_stop(&action));
    let record = RecordData::new(1, today(), 1, Value::of(1, 1), Value::of(2, 1));
    let (worker, action) = worker.record_inserted(Some(record));
    assert!(is_stop(&action));
    let (worker, action) = worker.record_inserted(None);
    assert!(is_stop(&action));
    let (worker, action) = worker.history_fetched(Some(vec![record]));
    assert!(is_stop(&action));
    let (worker, action) = worker.history_fetched(None);
    assert!(is_stop(&action));
    let (worker, action) = worker.chart_published(true);
    assert!(is_stop(&action));
    assert!(worker.is_halted());
    assert!(worker.is_open());
}

#[test]
fn answers_that_nobody_asked_for_are_ignored() {
    let worker = RecordWorker::new();
    let (worker, action) = worker.currencies_listed(Some(vec![money(1, "AAA", 1, 1)]));
    assert!(is_sleep(&action));
    assert!(!worker.is_open());
    let record = RecordData::new(1, today(), 1, Value::of(1, 1), Value::of(2, 1));
    let (worker, action) = worker.record_inserted(Some(record));
    assert!(is_sleep(&action));
    let (worker, action) = worker.history_fetched(Some(vec![record]));
    assert!(is_sleep(&action));
    let (worker, action) = worker.chart_published(true);
    assert!(is_sleep(&action));
    assert!(matches!(worker.phase(), Phase::Idle));
}

#[test]
fn tick_drops_what_the_last_one_left_unfinished() {
    let opening = vec![money(1, "AAA", 1, 1), money(2, "BBB", 1, 1)];
    let (worker, action) = closed(opening.clone(), opening);
    assert_eq!(request_of(action).currency_id, 1);
    let (worker, action) = worker.tick(at(19, 0, 0), false);
    assert!(is_sleep(&action));
    assert!(matches!(worker.phase(), Phase::Idle));
    let (_, action) = worker.record_inserted(None);
    assert!(is_sleep(&action));
}

#[test]
fn later_entry_of_a_list_replaces_an_earlier_one() {
    let opening = vec![money(1, "AAA", 1, 1), money(2, "BBB", 1, 1), money(1, "AAA", 5, 1)];
    let closing = vec![money(2, "BBB", 3, 1), money(1, "AAA", 7, 1), money(2, "BBB", 4, 1)];
    let (worker, action) = closed(opening, closing);
    let first = request_of(action);
    assert_eq!(first.currency_id, 1);
    assert_eq!(float_of(&first.opening_value), 5.0);
    assert_eq!(float_of(&first.closing_value), 7.0);
    let (worker, action) = succeed(worker, first, 1);
    let second = request_of(action);
    assert_eq!(second.currency_id, 2);
    assert_eq!(float_of(&second.opening_value), 1.0);
    assert_eq!(float_of(&second.closing_value), 4.0);
    let (_, action) = succeed(worker, second, 2);
    assert!(is_sleep(&action));
}

#[test]
fn next_day_replaces_the_opening_snapshot() {
    let (worker, action) = closed(vec![money(1, "AAA", 1, 1)], vec![money(1, "AAA", 2, 1)]);
    let (worker, action) = succeed(worker, request_of(action), 1);
    assert!(is_sleep(&action));
    let (worker, action) = worker.tick(at(9, 0, 0), false);
    assert!(is_list(&action));
    let (worker, _) = worker.currencies_listed(Some(vec![money(2, "BBB", 3, 1)]));
    let (worker, action) = worker.tick(at(19, 0, 0), false);
    assert!(is_list(&action));
    let (worker, action) = worker.currencies_listed(Some(vec![money(1, "AAA", 5, 1), money(2, "BBB", 6, 1)]));
    let request = request_of(action);
    assert_eq!(request.currency_id, 2);
    assert_eq!(float_of(&request.opening_value), 3.0);
    assert_eq!(float_of(&request.closing_value), 6.0);
    let (_, action) = succeed(worker, request, 2);
    assert!(is_sleep(&action));
}

#[test]
fn tick_now_reads_the_clock() {
    let all_day = || RecordWorker::with_boundaries(
        TimeOfDay { secs: 0, frac: 0 },
        TimeOfDay { secs: u32::MAX, frac: u32::MAX },
    );
    let (worker, mut action) = all_day().tick_now(false);
    if is_sleep(&action) {
        // Midnight to the nanosecond: the next reading is later.
        let (_, again) = worker.tick_now(false);
        action = again;
    }
    assert!(is_list(&action));

    let never = RecordWorker::with_boundaries(
        TimeOfDay { secs: u32::MAX, frac: 0 },
        TimeOfDay { secs: u32::MAX, frac: u32::MAX },
    );
    let (never, action) = never.tick_now(false);
    assert!(is_sleep(&action));
    let (never, action) = never.tick_now(true);
    assert!(is_stop(&action));
    assert!(never.is_halted());
}

#[test]
fn time_of_day_from_hms() {
    assert_eq!(TimeOfDay::from_hms(6, 0, 0), Some(TimeOfDay { secs: 21_600, frac: 0 }));
    assert_eq!(TimeOfDay::from_hms(18, 0, 30), Some(TimeOfDay { secs: 64_830, frac: 0 }));
    assert_eq!(TimeOfDay::from_hms(23, 59, 59), Some(TimeOfDay { secs: 86_399, frac: 0 }));
    assert_eq!(TimeOfDay::from_hms(0, 0, 0), Some(TimeOfDay { secs: 0, frac: 0 }));
    assert_eq!(TimeOfDay::from_hms(24, 0, 0), None);
    assert_eq!(TimeOfDay::from_hms(0, 60, 0), None);
    assert_eq!(TimeOfDay::from_hms(0, 0, 60), None);
    assert_eq!(TimeOfDay::from_hms(u32::MAX, u32::MAX, u32::MAX), None);
}

#[test]
fn time_of_day_orders_as_chrono_does() {
    let times = [(0, 0, 0, 0), (6, 0, 0, 0), (6, 0, 0, 1), (6, 0, 1, 0), (18, 0, 30, 0), (23, 59, 59, 999_999_999), (23, 59, 59, 1_500_000_000)];
    for a in times {
        for b in times {
            let ta = chrono::NaiveTime::from_hms_nano_opt(a.0, a.1, a.2, a.3).unwrap();
            let tb = chrono::NaiveTime::from_hms_nano_opt(b.0, b.1, b.2, b.3).unwrap();
            let ma = TimeOfDay { secs: ta.num_seconds_from_midnight(), frac: ta.nanosecond() };
            let mb = TimeOfDay { secs: tb.num_seconds_from_midnight(), frac: tb.nanosecond() };
            assert_eq!(ma.is_before(&mb), ta < tb);
            assert_eq!(ma.is_after(&mb), ta > tb);
        }
    }
    let six = chrono::NaiveTime::from_hms_opt(6, 0, 0).unwrap();
    assert_eq!(TimeOfDay::from_hms(6, 0, 0).unwrap().secs, six.num_seconds_from_midnight());
}

#[test]
fn history_limit_is_a_setting() {
    let worker = RecordWorker::new().with_history_limit(3);
    let (worker, _) = worker.tick(at(9, 0, 0), false);
    let (worker, _) = worker.currencies_listed(Some(vec![money(1, "AAA", 1, 1)]));
    let (worker, _) = worker.tick(at(19, 0, 0), false);
    let (worker, action) = worker.currencies_listed(Some(vec![money(1, "AAA", 2, 1)]));
    let request = request_of(action);
    let (_, action) = worker.record_inserted(Some(request.into_record(1, today())));
    assert!(matches!(action, WorkerAction::FetchHistory { currency_id: 1, limit: 3 }));
}

#[test]
fn history_limit_of_none_still_plans_a_chart() {
    let worker = RecordWorker::new().with_history_limit(0);
    let (worker, _) = worker.tick(at(9, 0, 0), false);
    let (worker, _) = worker.currencies_listed(Some(vec![money(1, "AAA", 1, 1)]));
    let (worker, _) = worker.tick(at(19, 0, 0), false);
    let (worker, action) = worker.currencies_listed(Some(vec![money(1, "AAA", 2, 1)]));
    let request = request_of(action);
    let (worker, action) = worker.record_inserted(Some(request.into_record(4, today())));
    assert!(matches!(action, WorkerAction::FetchHistory { currency_id: 1, limit: 0 }));
    let (worker, action) = worker.history_fetched(Some(Vec::new()));
    match action {
        WorkerAction::PublishChart(plan) => {
            assert_eq!(plan.record_id, 4);
            assert_eq!(plan.trend, Trend::Neutral);
            assert_eq!(plan.points.len(), 0);
            assert_eq!(plan.date_range, None);
        }
        other => panic!("expected a chart, got {:?}", other),
    }
    let (_, action) = worker.chart_published(true);
    assert!(is_sleep(&action));
}
