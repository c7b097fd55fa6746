//! Reading the ledger: the keys a currency list can be sorted by, and how
//! the rows that the store returns are cut to the number asked for.

use vstd::prelude::*;
use vstd::string::StringExecFns;

use crate::types::{CurrencyData, RecordData};

verus! {

/// The key by which a list of currencies is sorted.
#[derive(Debug, Clone, Copy, PartialEq, Eq, Structural)]
pub enum CurrencySort {
    Name,
    CurrencyCode,
    Reserves,
    Circulation,
    Value,
    State,
}

impl CurrencySort {
    /// The column of the currency table that holds the key.
    pub open spec fn column_spec(self) -> Seq<char> {
        match self {
            CurrencySort::Name => "currency_name"@,
            CurrencySort::CurrencyCode => "currency_code"@,
            CurrencySort::State => "state"@,
            CurrencySort::Reserves => "reserves"@,
            CurrencySort::Circulation => "circulation"@,
            CurrencySort::Value => "value"@,
        }
    }

    /// Whether a list sorted by this key is shown largest first: so it is
    /// for the three numeric keys.
    pub open spec fn largest_first_spec(self) -> bool {
        self == CurrencySort::Reserves || self == CurrencySort::Circulation || self
            == CurrencySort::Value
    }

    /// The column of the currency table that holds the key.
    pub fn column(&self) -> (c: &'static str)
        ensures
            c@ == self.column_spec(),
    {
        match self {
            CurrencySort::Name => "currency_name",
            CurrencySort::CurrencyCode => "currency_code",
            CurrencySort::State => "state",
            CurrencySort::Reserves => "reserves",
            CurrencySort::Circulation => "circulation",
            CurrencySort::Value => "value",
        }
    }

    /// Whether a list sorted by this key is shown largest first.
    pub fn largest_first(&self) -> (b: bool)
        ensures
            b == self.largest_first_spec(),
    {
        match self {
            CurrencySort::Reserves | CurrencySort::Circulation | CurrencySort::Value => true,
            _ => false,
        }
    }
}

/// The statement that reads the currencies in ascending order of a key.
pub open spec fn list_statement_of(sort: CurrencySort) -> Seq<char> {
    "SELECT * FROM currencies ORDER BY "@ + sort.column_spec()
}

/// The statement that reads the currencies in ascending order of a key.
pub fn list_statement(sort: CurrencySort) -> (statement: String)
    ensures
        statement@ == list_statement_of(sort),
{
    String::from_str("SELECT * FROM currencies ORDER BY ").concat(sort.column())
}

/// The page of a currency list: of the rows, which the store returns in
/// ascending order of the key, the first `number` (all of them where
/// `number` is negative), turned round where the key is shown largest first.
pub open spec fn page_of(rows: Seq<CurrencyData>, number: int, sort: CurrencySort) -> Seq<
    CurrencyData,
> {
    let taken = if number < 0 || number >= rows.len() {
        rows
    } else {
        rows.take(number)
    };
    if sort.largest_first_spec() {
        taken.reverse()
    } else {
        taken
    }
}

/// Cuts the rows of a currency query to the page asked for.
pub fn list_page(rows: &Vec<CurrencyData>, number: i64, sort: CurrencySort) -> (page: Vec<
    CurrencyData,
>)
    ensures
        page@ == page_of(rows@, number as int, sort),
{
    let count: usize = if number < 0 || number as u64 >= rows.len() as u64 {
        rows.len()
    } else {
        number as usize
    };
    let ghost taken = if number < 0 || number >= rows.len() {
        rows@
    } else {
        rows@.take(number as int)
    };
    assert(taken.len() == count);
    let mut page: Vec<CurrencyData> = Vec::new();
    let mut i: usize = 0;
    if sort.largest_first() {
        while i < count
            invariant
                i <= count,
                count == taken.len(),
                count <= rows.len(),
                forall|k: int| 0 <= k < count ==> taken[k] == rows@[k],
                page@.len() == i,
                forall|k: int| 0 <= k < i ==> page@[k] == taken[count - 1 - k],
            decreases count - i,
        {
            page.push(rows[count - 1 - i].clone());
            i = i + 1;
        }
        assert(page@ =~= taken.reverse());
    } else {
        while i < count
            invariant
                i <= count,
                count == taken.len(),
                count <= rows.len(),
                forall|k: int| 0 <= k < count ==> taken[k] == rows@[k],
                page@.len() == i,
                forall|k: int| 0 <= k < i ==> page@[k] == taken[k],
            decreases count - i,
        {
            page.push(rows[i].clone());
            i = i + 1;
        }
        assert(page@ =~= taken);
    }
    page
}

/// The most recent records of a currency: of the rows, which the store
/// returns newest first, the first `number`, all of them where there are
/// fewer, and none where `number` is not positive.
pub open spec fn recent_of(rows: Seq<RecordData>, number: int) -> Seq<RecordData> {
    if number <= 0 {
        Seq::empty()
    } else if number >= rows.len() {
        rows
    } else {
        rows.take(number)
    }
}

/// Cuts the rows of a record query to the number asked for: the result
/// never holds more records than `number`.
pub fn recent_records(rows: &Vec<RecordData>, number: i64) -> (recent: Vec<RecordData>)
    ensures
        recent@ == recent_of(rows@, number as int),
        recent@.len() <= rows@.len(),
        number >= 0 ==> recent@.len() <= number,
{
    let count: usize = if number <= 0 {
        0
    } else if number as u64 >= rows.len() as u64 {
        rows.len()
    } else {
        number as usize
    };
    let mut recent: Vec<RecordData> = Vec::new();
    let mut i: usize = 0;
    assert(recent@ =~= rows@.take(0));
    while i < count
        invariant
            i <= count,
            count <= rows.len(),
            recent@ == rows@.take(i as int),
        decreases count - i,
    {
        recent.push(rows[i]);
        i = i + 1;
        assert(recent@ =~= rows@.take(i as int));
    }
    assert(rows@.take(rows.len() as int) =~= rows@);
    assert(rows@.take(0) =~= Seq::<RecordData>::empty());
    recent
}

} // verus!
