//! The ledger's data model: currencies, transactions and daily records.

pub mod value;

use chrono::NaiveDateTime;
use vstd::prelude::*;
use vstd::string::StringExecFns;

use crate::types::value::{sign_of, value_of, Ratio, Value};
use crate::utils::text::{digits, digits_text, pad_left, zero_filled};

verus! {

/// A date and time without a zone of `chrono`, carried through as an opaque value.
#[verifier::external_type_specification]
#[verifier::external_body]
pub struct ExNaiveDateTime(NaiveDateTime);

/// A named, coded unit of virtual value, backed by gold reserves.
#[derive(Debug)]
pub struct CurrencyData {
    pub currency_id: i64,
    pub currency_name: String,
    pub currency_code: String,
    pub circulation: i64,
    pub reserves: i64,
    pub owner: String,
    pub state: String,
}

impl Clone for CurrencyData {
    fn clone(&self) -> (c: Self)
        ensures
            c == *self,
    {
        CurrencyData {
            currency_id: self.currency_id,
            currency_name: self.currency_name.clone(),
            currency_code: self.currency_code.clone(),
            circulation: self.circulation,
            reserves: self.reserves,
            owner: self.owner.clone(),
            state: self.state.clone(),
        }
    }
}

impl Default for CurrencyData {
    fn default() -> (c: Self)
        ensures
            c.currency_id == 0,
            c.currency_name@ == Seq::<char>::empty(),
            c.currency_code@ == Seq::<char>::empty(),
            c.circulation == 0,
            c.reserves == 0,
            c.owner@ == Seq::<char>::empty(),
            c.state@ == Seq::<char>::empty(),
    {
        CurrencyData {
            currency_id: 0,
            currency_name: String::new(),
            currency_code: String::new(),
            circulation: 0,
            reserves: 0,
            owner: String::new(),
            state: String::new(),
        }
    }
}

impl CurrencyData {
    /// The currency's value: reserves over circulation where both are
    /// positive, and exactly zero otherwise.
    pub open spec fn value_spec(&self) -> real {
        value_of(self.reserves as int, self.circulation as int)
    }

    /// The currency's value, derived from its reserves and circulation.
    pub fn value(&self) -> (v: Value)
        ensures
            v.wf(),
            v@ == self.value_spec(),
    {
        Value::of(self.reserves, self.circulation)
    }
}

/// Which balance of a currency a transaction changed.
#[derive(Clone, Copy, Debug, PartialEq, Eq, Structural)]
pub enum TransactionKind {
    Reserves,
    Circulation,
}

/// An audit entry for one change of a currency's reserves or circulation.
#[derive(Debug)]
pub struct TransactionData {
    transaction_id: i64,
    transaction_date: NaiveDateTime,
    currency_code: String,
    delta_reserves: Option<i64>,
    delta_circulation: Option<i64>,
}

impl TransactionData {
    /// A transaction changes exactly one of the two balances.
    #[verifier::type_invariant]
    pub closed spec fn wf(self) -> bool {
        self.delta_reserves is Some <==> self.delta_circulation is None
    }

    /// The identifier that the store assigned.
    pub closed spec fn id(self) -> i64 {
        self.transaction_id
    }

    /// When the transaction was made.
    pub closed spec fn date(self) -> NaiveDateTime {
        self.transaction_date
    }

    /// The code of the currency that the transaction changed.
    pub closed spec fn code(self) -> Seq<char> {
        self.currency_code@
    }

    /// The change of the reserves, where the transaction changed them.
    pub closed spec fn reserves_delta(self) -> Option<i64> {
        self.delta_reserves
    }

    /// The change of the circulation, where the transaction changed it.
    pub closed spec fn circulation_delta(self) -> Option<i64> {
        self.delta_circulation
    }

    /// A well-formed transaction has exactly one delta.
    pub proof fn lemma_one_delta(self)
        requires
            self.wf(),
        ensures
            self.reserves_delta() is Some <==> self.circulation_delta() is None,
    {
    }

    /// The entry for a change of `amount` to the balance that `kind` names.
    pub fn new(
        transaction_id: i64,
        transaction_date: NaiveDateTime,
        currency_code: String,
        kind: TransactionKind,
        amount: i64,
    ) -> (t: TransactionData)
        ensures
            t.wf(),
            t.id() == transaction_id,
            t.date() == transaction_date,
            t.code() == currency_code@,
            t.reserves_delta() == if kind == TransactionKind::Reserves {
                Some(amount)
            } else {
                None
            },
            t.circulation_delta() == if kind == TransactionKind::Circulation {
                Some(amount)
            } else {
                None
            },
    {
        match kind {
            TransactionKind::Reserves => TransactionData {
                transaction_id,
                transaction_date,
                currency_code,
                delta_reserves: Some(amount),
                delta_circulation: None,
            },
            TransactionKind::Circulation => TransactionData {
                transaction_id,
                transaction_date,
                currency_code,
                delta_reserves: None,
                delta_circulation: Some(amount),
            },
        }
    }

    /// The identifier that the store assigned.
    pub fn transaction_id(&self) -> (id: i64)
        ensures
            id == self.id(),
    {
        self.transaction_id
    }

    /// When the transaction was made.
    pub fn transaction_date(&self) -> (d: NaiveDateTime)
        ensures
            d == self.date(),
    {
        self.transaction_date
    }

    /// The code of the currency that the transaction changed.
    pub fn currency_code(&self) -> (c: &String)
        ensures
            c@ == self.code(),
    {
        &self.currency_code
    }

    /// The change of the reserves, where the transaction changed them.
    pub fn delta_reserves(&self) -> (d: Option<i64>)
        ensures
            d == self.reserves_delta(),
    {
        self.delta_reserves
    }

    /// The change of the circulation, where the transaction changed it.
    pub fn delta_circulation(&self) -> (d: Option<i64>)
        ensures
            d == self.circulation_delta(),
    {
        self.delta_circulation
    }
}

/// A calendar date.
#[derive(Debug, Clone, Copy, PartialEq, Eq, Structural)]
pub struct RecordDate {
    pub year: i32,
    pub month: u32,
    pub day: u32,
}

/// The text of a year: four digits for the years 0 to 9999, and a sign
/// followed by at least four digits for any other.
pub open spec fn year_text(year: int) -> Seq<char> {
    if 0 <= year <= 9999 {
        pad_left(digits(year as nat), 4, '0')
    } else if year > 9999 {
        "+"@ + digits(year as nat)
    } else {
        "-"@ + pad_left(digits((-year) as nat), 4, '0')
    }
}

impl RecordDate {
    /// The date as text: year, month and day, with hyphens between them.
    pub open spec fn text_spec(self) -> Seq<char> {
        year_text(self.year as int) + "-"@ + pad_left(digits(self.month as nat), 2, '0') + "-"@
            + pad_left(digits(self.day as nat), 2, '0')
    }

    /// The date as text: year, month and day, with hyphens between them.
    pub fn text(&self) -> (s: String)
        ensures
            s@ == self.text_spec(),
    {
        let year = if self.year >= 0 {
            let body = zero_filled(digits_text(self.year as u128), 4);
            if self.year <= 9999 {
                body
            } else {
                proof {
                    lemma_digits_len(self.year as nat);
                }
                String::from_str("+").concat(body.as_str())
            }
        } else {
            let size: i64 = -(self.year as i64);
            String::from_str("-").concat(zero_filled(digits_text(size as u128), 4).as_str())
        };
        let month = zero_filled(digits_text(self.month as u128), 2);
        let day = zero_filled(digits_text(self.day as u128), 2);
        year.concat("-").concat(month.as_str()).concat("-").concat(day.as_str())
    }
}

/// A number above 9999 has at least five digits.
proof fn lemma_digits_len(n: nat)
    ensures
        digits(n).len() >= 1,
        n >= 10 ==> digits(n).len() >= 2,
        n >= 100 ==> digits(n).len() >= 3,
        n >= 1000 ==> digits(n).len() >= 4,
{
    reveal_with_fuel(digits, 5);
}

/// A day's valuation of one currency: its value at opening and at closing,
/// the change between them, and the direction of that change.
#[derive(Debug)]
pub struct RecordData {
    record_id: i64,
    record_date: RecordDate,
    currency_id: i64,
    opening_value: Value,
    closing_value: Value,
    delta_value: Ratio,
    growth: i16,
}

impl Clone for RecordData {
    fn clone(&self) -> (r: Self)
        ensures
            r == *self,
    {
        proof {
            use_type_invariant(self);
        }
        RecordData {
            record_id: self.record_id,
            record_date: self.record_date,
            currency_id: self.currency_id,
            opening_value: self.opening_value,
            closing_value: self.closing_value,
            delta_value: self.delta_value,
            growth: self.growth,
        }
    }
}

impl Copy for RecordData {

}

impl RecordData {
    /// A record's change is its closing value less its opening value, and
    /// its growth is the sign of that change.
    #[verifier::type_invariant]
    pub closed spec fn wf(self) -> bool {
        &&& self.opening_value.wf()
        &&& self.closing_value.wf()
        &&& self.delta_value.wf()
        &&& self.delta_value@ == self.closing_value@ - self.opening_value@
        &&& self.growth == sign_of(self.delta_value@)
    }

    /// The identifier that the store assigned.
    pub closed spec fn id(self) -> i64 {
        self.record_id
    }

    /// The day that the record is of.
    pub closed spec fn date(self) -> RecordDate {
        self.record_date
    }

    /// The identifier of the currency that the record is of.
    pub closed spec fn currency(self) -> i64 {
        self.currency_id
    }

    /// The currency's value when the market opened.
    pub closed spec fn opening(self) -> Value {
        self.opening_value
    }

    /// The currency's value when the market closed.
    pub closed spec fn closing(self) -> Value {
        self.closing_value
    }

    /// The closing value less the opening value.
    pub closed spec fn delta(self) -> Ratio {
        self.delta_value
    }

    /// The direction of the day's change: 1, -1 or 0.
    pub closed spec fn growth_sign(self) -> int {
        self.growth as int
    }

    /// What holds of every well-formed record.
    pub proof fn lemma_derived(self)
        requires
            self.wf(),
        ensures
            self.opening().wf(),
            self.closing().wf(),
            self.delta().wf(),
            self.delta()@ == self.closing()@ - self.opening()@,
            self.growth_sign() == sign_of(self.delta()@),
    {
    }

    /// The record of a day on which the currency opened at `opening_value`
    /// and closed at `closing_value`.
    pub fn new(
        record_id: i64,
        record_date: RecordDate,
        currency_id: i64,
        opening_value: Value,
        closing_value: Value,
    ) -> (r: RecordData)
        ensures
            r.wf(),
            r.id() == record_id,
            r.date() == record_date,
            r.currency() == currency_id,
            r.opening() == opening_value,
            r.closing() == closing_value,
            r.delta()@ == closing_value@ - opening_value@,
            r.growth_sign() == sign_of(closing_value@ - opening_value@),
    {
        proof {
            use_type_invariant(&opening_value);
            use_type_invariant(&closing_value);
        }
        let delta_value = closing_value.minus(&opening_value);
        let growth = delta_value.sign();
        RecordData {
            record_id,
            record_date,
            currency_id,
            opening_value,
            closing_value,
            delta_value,
            growth,
        }
    }

    /// The identifier that the store assigned.
    pub fn record_id(&self) -> (id: i64)
        ensures
            id == self.id(),
    {
        self.record_id
    }

    /// The day that the record is of.
    pub fn record_date(&self) -> (d: RecordDate)
        ensures
            d == self.date(),
    {
        self.record_date
    }

    /// The identifier of the currency that the record is of.
    pub fn currency_id(&self) -> (id: i64)
        ensures
            id == self.currency(),
    {
        self.currency_id
    }

    /// The currency's value when the market opened.
    pub fn opening_value(&self) -> (v: Value)
        ensures
            v == self.opening(),
            v.wf(),
    {
        proof {
            use_type_invariant(self);
        }
        self.opening_value
    }

    /// The currency's value when the market closed.
    pub fn closing_value(&self) -> (v: Value)
        ensures
            v == self.closing(),
            v.wf(),
    {
        proof {
            use_type_invariant(self);
        }
        self.closing_value
    }

    /// The closing value less the opening value.
    pub fn delta_value(&self) -> (d: Ratio)
        ensures
            d == self.delta(),
            d.wf(),
            d@ == self.closing()@ - self.opening()@,
    {
        proof {
            use_type_invariant(self);
        }
        self.delta_value
    }

    /// -1 for a decline, 0 for a steady value, 1 for growth.
    pub fn growth(&self) -> (g: i16)
        ensures
            g == self.growth_sign(),
            g == sign_of(self.closing()@ - self.opening()@),
    {
        proof {
            use_type_invariant(self);
        }
        self.growth
    }
}

/// A message to a background worker.
#[derive(Debug, Clone, Copy, Default, PartialEq, Eq, Structural)]
pub enum WorkerMessage {
    /// Stop polling and return.
    #[default]
    Halt,
}

} // verus!
