//! Changing the ledger: what a new currency holds, how a balance moves, and
//! which column a change of a currency's description touches.

use vstd::prelude::*;
use vstd::string::StringExecFns;

use crate::types::CurrencyData;

verus! {

/// The part of a currency's description that a change touches.
#[derive(Debug, Clone, Copy, PartialEq, Eq, Structural)]
pub enum ModifyMetaType {
    Name,
    Code,
    State,
}

impl ModifyMetaType {
    /// The column of the currency table that holds the part.
    pub open spec fn column_spec(self) -> Seq<char> {
        match self {
            ModifyMetaType::Name => "currency_name"@,
            ModifyMetaType::Code => "currency_code"@,
            ModifyMetaType::State => "state"@,
        }
    }

    /// The column of the currency table that holds the part.
    pub fn column(&self) -> (c: &'static str)
        ensures
            c@ == self.column_spec(),
    {
        match self {
            ModifyMetaType::Name => "currency_name",
            ModifyMetaType::Code => "currency_code",
            ModifyMetaType::State => "state",
        }
    }
}

/// The statement that changes one part of a currency's description and
/// returns the changed row.
pub open spec fn update_statement_of(kind: ModifyMetaType) -> Seq<char> {
    "UPDATE currencies SET "@ + kind.column_spec()
        + " = $1 WHERE currency_code = $2 RETURNING *"@
}

/// The statement that changes one part of a currency's description and
/// returns the changed row.
pub fn update_statement(kind: ModifyMetaType) -> (statement: String)
    ensures
        statement@ == update_statement_of(kind),
{
    String::from_str("UPDATE currencies SET ").concat(kind.column()).concat(
        " = $1 WHERE currency_code = $2 RETURNING *",
    )
}

/// The currency that the ledger holds once it has stored a new one under
/// the identifier `currency_id`.
pub fn new_currency(
    currency_id: i64,
    currency_code: String,
    currency_name: String,
    circulation: i64,
    gold_reserve: i64,
    state: String,
    owner: String,
) -> (c: CurrencyData)
    ensures
        c == (CurrencyData {
            currency_id,
            currency_name,
            currency_code,
            circulation,
            reserves: gold_reserve,
            owner,
            state,
        }),
{
    CurrencyData {
        currency_id,
        currency_name,
        currency_code,
        circulation,
        reserves: gold_reserve,
        owner,
        state,
    }
}

/// A balance after a change of `amount`, where that is a balance the
/// ledger can hold.
pub fn changed_balance(balance: i64, amount: i64) -> (r: Option<i64>)
    ensures
        r is Some <==> i64::MIN <= balance + amount <= i64::MAX,
        r is Some ==> r->0 == balance + amount,
{
    let sum: i128 = balance as i128 + amount as i128;
    if sum < i64::MIN as i128 || sum > i64::MAX as i128 {
        None
    } else {
        Some(sum as i64)
    }
}

} // verus!
