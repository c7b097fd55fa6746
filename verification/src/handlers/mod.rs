//! The handlers of the `currency` command's subcommands.
//!
//! A handler reads the options of its subcommand, remembers what a later
//! confirmation needs, and words the answers. Looking things up in the
//! ledger and changing it is the caller's part: the handler is handed what
//! came back.

pub mod boilerplate;
pub mod circulation;
pub mod create;
pub mod database;
pub mod delete;
pub mod list;
pub mod modify;
pub mod records;
pub mod reserve;
pub mod view;


use vstd::prelude::*;
use vstd::string::StringExecFns;

use crate::discord::builder::{ButtonStyle, CreateButton, CreateComponent, CreateComponents};
use crate::discord::interaction::{
    any_integer_below, find_integer, find_string, gives_integer_from, gives_string,
    has_integer_below, last_integer, last_string, law_last_integer, law_last_integer_from,
    law_last_string, ApplicationCommandInteraction, CommandDataOption, User,
};

verus! {

/// A text between double quotes.
pub open spec fn quoted(text: Seq<char>) -> Seq<char> {
    "\""@ + text + "\""@
}

/// A text between double quotes.
pub fn quoted_text(text: &str) -> (q: String)
    ensures
        q@ == quoted(text@),
{
    String::from_str("\"").concat(text).concat("\"")
}

/// A row with a button to confirm and a button to cancel.
pub open spec fn confirm_cancel_of(
    confirm_style: ButtonStyle,
    confirm_id: &'static str,
    cancel_style: ButtonStyle,
    cancel_id: &'static str,
) -> Seq<Seq<CreateComponent>> {
    seq![
        seq![
            CreateComponent::Button(
                CreateButton { label: "Confirm", style: confirm_style, custom_id: confirm_id },
            ),
            CreateComponent::Button(
                CreateButton { label: "Cancel", style: cancel_style, custom_id: cancel_id },
            ),
        ],
    ]
}

/// A row with a button to confirm and a button to cancel.
pub fn confirm_cancel(
    confirm_style: ButtonStyle,
    confirm_id: &'static str,
    cancel_style: ButtonStyle,
    cancel_id: &'static str,
) -> (c: CreateComponents)
    ensures
        c@ == confirm_cancel_of(confirm_style, confirm_id, cancel_style, cancel_id),
{
    CreateComponents::two_buttons(
        CreateButton { label: "Confirm", style: confirm_style, custom_id: confirm_id },
        CreateButton { label: "Cancel", style: cancel_style, custom_id: cancel_id },
    )
}

/// The name of the action that a command of a subcommand group chose: the
/// first option of the command's first option.
pub open spec fn action_name_of(data: ApplicationCommandInteraction) -> Option<Seq<char>> {
    if data.options@.len() > 0 && data.options@[0].options@.len() > 0 {
        Some(data.options@[0].options@[0].name@)
    } else {
        None
    }
}

/// The action that a command of a subcommand group chose.
pub fn chosen_action(data: &ApplicationCommandInteraction) -> (a: Option<&CommandDataOption>)
    ensures
        a is Some <==> action_name_of(*data) is Some,
        a is Some ==> *a->0 == data.options@[0].options@[0],
{
    if data.options.len() > 0 && data.options[0].options.len() > 0 {
        Some(&data.options[0].options[0])
    } else {
        None
    }
}

/// What a press of a button on a confirmation asks for.
#[derive(Debug, Clone, Copy, PartialEq, Eq, Structural)]
pub enum Decision {
    /// Go ahead.
    Confirm,
    /// Leave everything as it is.
    Cancel,
    /// The button is none of the handler's.
    Unknown,
}

/// The transaction that a handler remembers.
pub struct PendingTransaction {
    pub code: Seq<char>,
    pub amount: i64,
    pub initiator: User,
}

/// What the options of `add` or `remove` ask for: the signed amount and the
/// currency's code, or which subcommand was given a negative amount.
pub open spec fn parse_spec(options: Seq<CommandDataOption>, add: bool) -> Result<
    (i64, Seq<char>),
    &'static str,
> {
    if has_integer_below(options, "amount"@, 0) {
        Err(
            if add {
                "add"
            } else {
                "remove"
            },
        )
    } else {
        let amount: i64 = match last_integer(options, "amount"@) {
            Some(n) => if add {
                n
            } else {
                (-n) as i64
            },
            None => 0,
        };
        let code = match last_string(options, "code"@) {
            Some(code) => code,
            None => Seq::empty(),
        };
        Ok((amount, code))
    }
}

/// The options of a transaction may come in any order: where one option is
/// the amount and one is the code, and no other bears either name, the amount
/// is refused where it is negative, and else the transaction is that amount,
/// with its sign turned for a removal, of the currency of that code.
pub proof fn law_transaction_any_order(
    options: Seq<CommandDataOption>,
    add: bool,
    amount_at: int,
    code_at: int,
)
    requires
        0 <= amount_at < options.len(),
        0 <= code_at < options.len(),
        options[amount_at].name@ == "amount"@,
        options[amount_at].integer_value() is Some,
        options[code_at].name@ == "code"@,
        options[code_at].string_value() is Some,
        forall|k: int|
            0 <= k < options.len() && k != amount_at ==> (#[trigger] options[k]).name@
                != "amount"@,
        forall|k: int|
            0 <= k < options.len() && k != code_at ==> (#[trigger] options[k]).name@ != "code"@,
    ensures
        options[amount_at].integer_value()->0 < 0 ==> parse_spec(options, add) == Err::<
            (i64, Seq<char>),
            &'static str,
        >(
            if add {
                "add"
            } else {
                "remove"
            },
        ),
        options[amount_at].integer_value()->0 >= 0 ==> parse_spec(options, add) == Ok::<
            (i64, Seq<char>),
            &'static str,
        >(
            (
                if add {
                    options[amount_at].integer_value()->0
                } else {
                    (-options[amount_at].integer_value()->0) as i64
                },
                options[code_at].string_value()->0,
            ),
        ),
{
    let given = options[amount_at].integer_value()->0;
    law_last_string(options, "code"@);
    law_last_integer_from(options, "amount"@, i64::MIN as int);
    law_last_integer(options, "amount"@);
    assert(gives_string(options[code_at], "code"@));
    assert(gives_integer_from(options[amount_at], "amount"@, i64::MIN as int));
    assert(last_string(options, "code"@) == options[code_at].string_value());
    assert(last_integer(options, "amount"@) == Some(given));
    if given < 0 {
        assert(has_integer_below(options, "amount"@, 0));
    } else {
        assert(!has_integer_below(options, "amount"@, 0));
    }
}

/// Reads the signed amount and the currency's code from the options of a
/// subcommand that adds (where `add` holds) or removes.
pub fn read_transaction(options: &Vec<CommandDataOption>, add: bool) -> (r: Result<
    (i64, String),
    &'static str,
>)
    ensures
        r is Ok <==> parse_spec(options@, add) is Ok,
        r is Ok ==> r->Ok_0.0 == parse_spec(options@, add)->Ok_0.0 && r->Ok_0.1@ == parse_spec(
            options@,
            add,
        )->Ok_0.1,
        r is Err ==> r->Err_0 == parse_spec(options@, add)->Err_0,
{
    if any_integer_below(options, "amount", 0) {
        return Err(
            if add {
                "add"
            } else {
                "remove"
            },
        );
    }
    let amount: i64 = match find_integer(options, "amount") {
        Some(n) => {
            proof {
                lemma_found_not_below(options@, "amount"@, 0);
            }
            if add {
                n
            } else {
                -n
            }
        },
        None => 0,
    };
    let code = match find_string(options, "code") {
        Some(code) => code,
        None => String::new(),
    };
    Ok((amount, code))
}

/// Where no option called `name` has a number below `least`, the last
/// number of that name is not below it.
pub proof fn lemma_found_not_below(options: Seq<CommandDataOption>, name: Seq<char>, least: int)
    requires
        !has_integer_below(options, name, least),
    ensures
        last_integer(options, name) is Some ==> last_integer(options, name)->0 >= least,
    decreases options.len(),
{
    if options.len() > 0 {
        let last = options.last();
        assert(options[options.len() - 1] == last);
        if last.name@ == name && last.integer_value() is Some {
        } else {
            let before = options.drop_last();
            assert forall|i: int| 0 <= i < before.len() implies !((#[trigger] before[i]).name@
                == name && before[i].integer_value() is Some && before[i].integer_value()->0
                < least) by {
                assert(before[i] == options[i]);
            }
            lemma_found_not_below(before, name, least);
        }
    }
}

} // verus!
