//! The chart of a currency's recent history: what is drawn, in which colour,
//! and where the picture is published.

use vstd::prelude::*;
use vstd::string::StringExecFns;

use crate::types::value::{Ratio, Value};
use crate::types::{CurrencyData, RecordData, RecordDate};
use crate::utils::text::{zero_padded, zero_padded_text};

verus! {

/// How many records a chart shows at most.
pub const HISTORY_LIMIT: i64 = 14;

/// The trend threshold, as a divisor: a change of more than one part in
/// `TREND_SCALE` of a unit of value counts as a gain or a decline.
pub const TREND_SCALE: u32 = 5;

/// The width to which identifiers are filled with zeros in file names and
/// addresses.
pub const ID_WIDTH: usize = 5;

/// The short-term trend of a currency, which decides the colour of its line.
#[derive(Debug, Clone, Copy, PartialEq, Eq, Structural)]
pub enum Trend {
    Gain,
    Decline,
    Neutral,
}

/// The trend between two closing values: a gain where the later exceeds the
/// earlier by more than the threshold, a decline where it falls short of it by
/// more than the threshold, and neutral otherwise.
pub open spec fn trend_between(latest: real, previous: real) -> Trend {
    if (TREND_SCALE as real) * (latest - previous) > 1real {
        Trend::Gain
    } else if (TREND_SCALE as real) * (latest - previous) < -1real {
        Trend::Decline
    } else {
        Trend::Neutral
    }
}

/// The trend that a history, newest record first, shows: that between its
/// two newest records, and neutral where it has fewer than two.
pub open spec fn trend_of(history: Seq<RecordData>) -> Trend {
    if history.len() >= 2 {
        trend_between(history[0].closing()@, history[1].closing()@)
    } else {
        Trend::Neutral
    }
}

/// The largest closing value of a history, and zero for an empty one.
pub open spec fn max_closing(history: Seq<RecordData>) -> real
    decreases history.len(),
{
    if history.len() == 0 {
        0real
    } else {
        let before = max_closing(history.drop_last());
        let last = history.last().closing()@;
        if last > before {
            last
        } else {
            before
        }
    }
}

/// The upper end of the value axis: the largest closing value and one unit
/// of headroom above it.
pub open spec fn upper_bound_of(history: Seq<RecordData>) -> real {
    max_closing(history) + 1real
}

/// The dates that the chart spans, oldest first, where the history, newest
/// record first, has any record.
pub open spec fn date_range_of(history: Seq<RecordData>) -> Option<(RecordDate, RecordDate)> {
    if history.len() == 0 {
        None
    } else {
        Some((history.last().date(), history[0].date()))
    }
}

/// The file in which the chart of a currency is drawn.
pub open spec fn file_name_of(currency_id: int) -> Seq<char> {
    "data/"@ + zero_padded(currency_id, ID_WIDTH as nat) + ".png"@
}

/// The address under which the chart of a currency for a record is
/// published and found again.
pub open spec fn chart_url_of(currency_id: int, record_id: int) -> Seq<char> {
    "https://economist-image-server.shuttleapp.rs/"@ + zero_padded(currency_id, ID_WIDTH as nat)
        + "/"@ + zero_padded(record_id, ID_WIDTH as nat)
}

/// The heading of the chart of a currency.
pub open spec fn caption_of(currency_name: Seq<char>) -> Seq<char> {
    "Currency trend for "@ + currency_name
}

/// The label of the value axis of the chart of a currency.
pub open spec fn axis_label_of(currency_code: Seq<char>) -> Seq<char> {
    "Currency value (gold ingots per "@ + currency_code + ")"@
}

/// One point of the line: a record's date and closing value.
#[derive(Debug, Clone, Copy)]
pub struct ChartPoint {
    pub date: RecordDate,
    pub closing_value: Value,
}

/// Everything that drawing and publishing one chart takes.
#[derive(Debug)]
pub struct ChartPlan {
    pub currency_id: i64,
    pub record_id: i64,
    pub file_name: String,
    pub caption: String,
    pub value_axis_label: String,
    pub trend: Trend,
    pub upper_bound: Ratio,
    pub date_range: Option<(RecordDate, RecordDate)>,
    pub points: Vec<ChartPoint>,
    pub publish_url: String,
}

/// A chart plan, with texts as sequences of characters and values as the
/// numbers they denote.
pub struct ChartPlanView {
    pub currency_id: i64,
    pub record_id: i64,
    pub file_name: Seq<char>,
    pub caption: Seq<char>,
    pub value_axis_label: Seq<char>,
    pub trend: Trend,
    pub upper_bound: real,
    pub date_range: Option<(RecordDate, RecordDate)>,
    pub points: Seq<(RecordDate, real)>,
    pub publish_url: Seq<char>,
}

impl ChartPlan {
    /// The plan, with texts as sequences of characters and values as numbers.
    pub open spec fn view(self) -> ChartPlanView {
        ChartPlanView {
            currency_id: self.currency_id,
            record_id: self.record_id,
            file_name: self.file_name@,
            caption: self.caption@,
            value_axis_label: self.value_axis_label@,
            trend: self.trend,
            upper_bound: self.upper_bound@,
            date_range: self.date_range,
            points: self.points@.map_values(|p: ChartPoint| (p.date, p.closing_value@)),
            publish_url: self.publish_url@,
        }
    }
}

/// The points of a history's line: each record's date and closing value.
pub open spec fn points_of(history: Seq<RecordData>) -> Seq<(RecordDate, real)> {
    history.map_values(|r: RecordData| (r.date(), r.closing()@))
}

/// The chart of a currency after the record `record_id` was stored, given
/// the currency's recent history, newest record first.
pub open spec fn plan_of(currency: CurrencyData, record_id: i64, history: Seq<RecordData>)
    -> ChartPlanView {
    ChartPlanView {
        currency_id: currency.currency_id,
        record_id,
        file_name: file_name_of(currency.currency_id as int),
        caption: caption_of(currency.currency_name@),
        value_axis_label: axis_label_of(currency.currency_code@),
        trend: trend_of(history),
        upper_bound: upper_bound_of(history),
        date_range: date_range_of(history),
        points: points_of(history),
        publish_url: chart_url_of(currency.currency_id as int, record_id as int),
    }
}

/// The trend that a history, newest record first, shows.
pub fn trend(history: &Vec<RecordData>) -> (t: Trend)
    ensures
        t == trend_of(history@),
{
    if history.len() >= 2 {
        let latest = history[0].closing_value();
        let previous = history[1].closing_value();
        let change = latest.minus(&previous);
        if change.scaled_above_one(TREND_SCALE) {
            Trend::Gain
        } else if change.scaled_below_minus_one(TREND_SCALE) {
            Trend::Decline
        } else {
            Trend::Neutral
        }
    } else {
        Trend::Neutral
    }
}

/// The upper end of the value axis for a history.
pub fn axis_upper_bound(history: &Vec<RecordData>) -> (bound: Ratio)
    ensures
        bound.wf(),
        bound@ == upper_bound_of(history@),
{
    let mut best = Value::zero();
    let mut i: usize = 0;
    assert(history@.take(0) =~= Seq::<RecordData>::empty());
    while i < history.len()
        invariant
            i <= history.len(),
            best.wf(),
            best@ == max_closing(history@.take(i as int)),
        decreases history.len() - i,
    {
        let closing = history[i].closing_value();
        proof {
            let next = history@.take(i + 1);
            assert(next.drop_last() =~= history@.take(i as int));
            assert(next.last() == history@[i as int]);
        }
        if best.lt(&closing) {
            best = closing;
        }
        i = i + 1;
    }
    assert(history@.take(history.len() as int) =~= history@);
    best.plus_one()
}

/// The dates that the chart of a history spans, oldest first.
pub fn date_range(history: &Vec<RecordData>) -> (range: Option<(RecordDate, RecordDate)>)
    ensures
        range == date_range_of(history@),
{
    if history.len() == 0 {
        None
    } else {
        Some((history[history.len() - 1].record_date(), history[0].record_date()))
    }
}

/// The points of a history's line.
pub fn chart_points(history: &Vec<RecordData>) -> (points: Vec<ChartPoint>)
    ensures
        points@.map_values(|p: ChartPoint| (p.date, p.closing_value@)) == points_of(history@),
{
    let mut points: Vec<ChartPoint> = Vec::new();
    let mut i: usize = 0;
    while i < history.len()
        invariant
            i <= history.len(),
            points@.len() == i,
            forall|k: int|
                0 <= k < i ==> (#[trigger] points@[k]).date == history@[k].date()
                    && points@[k].closing_value@ == history@[k].closing()@,
        decreases history.len() - i,
    {
        let record = &history[i];
        points.push(ChartPoint { date: record.record_date(), closing_value: record.closing_value() });
        i = i + 1;
    }
    assert(points@.map_values(|p: ChartPoint| (p.date, p.closing_value@)) =~= points_of(
        history@,
    ));
    points
}

/// The file in which the chart of a currency is drawn.
pub fn chart_file_name(currency_id: i64) -> (name: String)
    ensures
        name@ == file_name_of(currency_id as int),
{
    let id = zero_padded_text(currency_id as i128, ID_WIDTH);
    let name = String::from_str("data/").concat(id.as_str()).concat(".png");
    name
}

/// The address under which the chart of a currency for a record is
/// published and found again.
pub fn chart_url(currency_id: i64, record_id: i64) -> (url: String)
    ensures
        url@ == chart_url_of(currency_id as int, record_id as int),
{
    let currency = zero_padded_text(currency_id as i128, ID_WIDTH);
    let record = zero_padded_text(record_id as i128, ID_WIDTH);
    let url = String::from_str("https://economist-image-server.shuttleapp.rs/").concat(
        currency.as_str(),
    ).concat("/").concat(record.as_str());
    url
}

/// Plans the chart of a currency after the record `record_id` was stored,
/// from the currency's recent history, newest record first.
pub fn chart_plan(currency: &CurrencyData, record_id: i64, history: &Vec<RecordData>) -> (plan:
    ChartPlan)
    ensures
        plan@ == plan_of(*currency, record_id, history@),
{
    let caption = String::from_str("Currency trend for ").concat(currency.currency_name.as_str());
    let value_axis_label = String::from_str("Currency value (gold ingots per ").concat(
        currency.currency_code.as_str(),
    ).concat(")");
    ChartPlan {
        currency_id: currency.currency_id,
        record_id,
        file_name: chart_file_name(currency.currency_id),
        caption,
        value_axis_label,
        trend: trend(history),
        upper_bound: axis_upper_bound(history),
        date_range: date_range(history),
        points: chart_points(history),
        publish_url: chart_url(currency.currency_id, record_id),
    }
}

} // verus!
