//! `currency list`: the currencies in a table.

use vstd::prelude::*;
use vstd::string::StringExecFns;

use crate::commands::query::CurrencySort;
use crate::discord::builder::{
    option_trees, CommandOptionType, CreateApplicationCommandOption, CreateComponents, OptionTree,
};
use crate::discord::interaction::{
    any_integer_below, find_integer, find_string, has_integer_below, last_integer, last_string,
    ApplicationCommandInteraction, CommandDataOption,
};
use crate::handlers::{quoted, quoted_text};
use crate::response::{CommandResponseObject, ResponseView};
use crate::types::CurrencyData;
use crate::utils::text::{
    decimal, decimal_text, fit, fit_text, pad_left, pad_left_text, pad_right, pad_right_text,
    same_text,
};
use crate::utils::{get_options, options_of};

verus! {

/// The handler of `currency list`.
#[derive(Debug)]
pub struct ListHandler {}

/// A currency with its value as the text that the table shows.
#[derive(Debug)]
pub struct ListedCurrency {
    pub currency: CurrencyData,
    pub value_text: String,
}

/// How many currencies the table shows where no number is asked for.
pub const DEFAULT_NUMBER: i64 = 10;

/// The top of the table.
pub const TABLE_TOP: &'static str = "**Currency List**\n```ansi\n┏━━━━━━━━━━━━━━━━━━━━━━━━━━━━━━━━━━━━┳━━━━━━━━━━━━━━━━━━━━━━━━━━━━━━┳━━━━━━━━━━━━━━┳━━━━━━━━━━━┳━━━━━━━━━━━━━━━━━┓";

/// The line between the table's head and its rows.
pub const TABLE_RULE: &'static str = "\n┣━━━━━━━━━━━━━━━━━━━━━━━━━━━━━━━━━━━━╋━━━━━━━━━━━━━━━━━━━━━━━━━━━━━━╋━━━━━━━━━━━━━━╋━━━━━━━━━━━╋━━━━━━━━━━━━━━━━━┫";

/// The bottom of the table.
pub const TABLE_BOTTOM: &'static str = "\n┗━━━━━━━━━━━━━━━━━━━━━━━━━━━━━━━━━━━━┻━━━━━━━━━━━━━━━━━━━━━━━━━━━━━━┻━━━━━━━━━━━━━━┻━━━━━━━━━━━┻━━━━━━━━━━━━━━━━━┛```";

/// The key that a choice of the option `sort` stands for.
pub open spec fn sort_of_choice(choice: Seq<char>) -> CurrencySort {
    if choice == "code"@ {
        CurrencySort::CurrencyCode
    } else if choice == "name"@ {
        CurrencySort::Name
    } else if choice == "state"@ {
        CurrencySort::State
    } else if choice == "reserves"@ {
        CurrencySort::Reserves
    } else if choice == "circulation"@ {
        CurrencySort::Circulation
    } else if choice == "value"@ {
        CurrencySort::Value
    } else {
        CurrencySort::CurrencyCode
    }
}

/// What the options of `list` ask for: the key to sort by, which is the
/// name where none is given, and the number of currencies, which is ten
/// where none is given and must be positive.
pub open spec fn parse_spec(options: Seq<CommandDataOption>) -> Result<
    (CurrencySort, i64),
    Seq<char>,
> {
    if has_integer_below(options, "number"@, 1) {
        Err("Can't have a negative number of currencies to return."@)
    } else {
        Ok(
            (
                match last_string(options, "sort"@) {
                    Some(choice) => sort_of_choice(choice),
                    None => CurrencySort::Name,
                },
                match last_integer(options, "number"@) {
                    Some(n) => n,
                    None => DEFAULT_NUMBER,
                },
            ),
        )
    }
}

/// What a command asks for, or the text of the error.
pub open spec fn request_spec(data: ApplicationCommandInteraction) -> Result<
    (CurrencySort, i64),
    Seq<char>,
> {
    match options_of(data) {
        Err(e) => Err("Error while parsing options: "@ + quoted(e)),
        Ok(options) => parse_spec(options),
    }
}

/// A column's heading, marked where the table is sorted by that column.
pub open spec fn heading(title: Seq<char>, marked: bool) -> Seq<char> {
    if marked {
        "\u{001b}[1;32m"@ + title + "\u{001b}[0m"@
    } else {
        title
    }
}

/// The table's head for a sort key.
pub open spec fn head_of(sort: CurrencySort) -> Seq<char> {
    "\n┃"@ + heading("Code"@, sort == CurrencySort::CurrencyCode) + " and "@ + heading(
        "Currency Name"@,
        sort == CurrencySort::Name,
    ) + "              ┃"@ + heading("Nation/State"@, sort == CurrencySort::State)
        + "                  ┃"@ + heading("Gold Reserves"@, sort == CurrencySort::Reserves)
        + " ┃"@ + heading("Circulation"@, sort == CurrencySort::Circulation) + "┃"@ + heading(
        "Value"@,
        sort == CurrencySort::Value,
    ) + "            ┃"@
}

/// The table's row for a currency: code and name, state, reserves,
/// circulation and value, each cut or filled to the width of its column.
pub open spec fn row_of(currency: CurrencyData, value_text: Seq<char>) -> Seq<char> {
    "\n┃[\u{001b}[36m"@ + fit(currency.currency_code@, 3) + "\u{001b}[0m] \u{001b}[1m"@ + fit(
        currency.currency_name@,
        30,
    ) + "\u{001b}[0m┃"@ + fit(currency.state@, 30) + "┃\u{001b}[1;33m"@ + pad_left(
        decimal(currency.reserves as int),
        7,
        ' ',
    ) + "\u{001b}[0m ingots┃\u{001b}[1;34m"@ + pad_left(
        decimal(currency.circulation as int),
        7,
        ' ',
    ) + "\u{001b}[0m "@ + currency.currency_code@ + "┃\u{001b}[1;35m"@ + pad_right(value_text, 3)
        + "\u{001b}[0m "@ + currency.currency_code@ + " / ingot┃"@
}

/// The table's rows.
pub open spec fn rows_of(currencies: Seq<ListedCurrency>) -> Seq<char>
    decreases currencies.len(),
{
    if currencies.len() == 0 {
        Seq::empty()
    } else {
        rows_of(currencies.drop_last()) + row_of(
            currencies.last().currency,
            currencies.last().value_text@,
        )
    }
}

/// The whole table.
pub open spec fn table_of(sort: CurrencySort, currencies: Seq<ListedCurrency>) -> Seq<char> {
    TABLE_TOP@ + head_of(sort) + TABLE_RULE@ + rows_of(currencies) + TABLE_BOTTOM@
}

/// A column's heading, marked where the table is sorted by that column.
fn heading_text(title: &str, marked: bool) -> (s: String)
    ensures
        s@ == heading(title@, marked),
{
    if marked {
        String::from_str("\u{001b}[1;32m").concat(title).concat("\u{001b}[0m")
    } else {
        String::from_str(title)
    }
}

/// The options that the handler describes to the chat service.
pub open spec fn registered() -> Seq<OptionTree> {
    seq![
        OptionTree::new(
            CommandOptionType::Integer,
            "number",
            "Number of currencies to list",
        ),
        OptionTree::new(
            CommandOptionType::String,
            "sort",
            "Attribute to sort currency list by",
        ).choice("Name", "name").choice("Nation/State", "state").choice(
            "Currency Code",
            "code",
        ).choice("Gold Reserves", "reserves").choice("Circulation", "circulation").choice(
            "Value",
            "value",
        ),
    ]
}

impl ListHandler {
    /// The handler, which keeps nothing in mind.
    pub fn new() -> (h: Self)
        ensures
            h == (ListHandler {  }),
    {
        ListHandler {  }
    }

    /// The name of the handler's subcommand.
    pub fn get_name(&self) -> (name: &'static str)
        ensures
            name == "list",
    {
        "list"
    }

    /// Whether the subcommand stands alone or groups actions.
    pub fn get_option_kind(&self) -> (kind: CommandOptionType)
        ensures
            kind == CommandOptionType::SubCommand,
    {
        CommandOptionType::SubCommand
    }

    /// What the handler's subcommand is for, in a few words.
    pub fn get_description(&self) -> (description: &'static str)
        ensures
            description
                == "List currencies in circulation, optionally specifying a number and ordering",
    {
        "List currencies in circulation, optionally specifying a number and ordering"
    }

    /// A number, and a key to sort by with its six choices.
    pub fn register(&self) -> (options: Vec<CreateApplicationCommandOption>)
        ensures
            option_trees(options@) == registered(),
    {
        let number = CreateApplicationCommandOption::new(
            CommandOptionType::Integer,
            "number",
            "Number of currencies to list",
        );
        let sort = CreateApplicationCommandOption::new(
            CommandOptionType::String,
            "sort",
            "Attribute to sort currency list by",
        ).choice("Name", "name").choice("Nation/State", "state").choice(
            "Currency Code",
            "code",
        ).choice("Gold Reserves", "reserves").choice("Circulation", "circulation").choice(
            "Value",
            "value",
        );
        let ghost trees = seq![number@, sort@];
        let mut options: Vec<CreateApplicationCommandOption> = Vec::new();
        options.push(number);
        options.push(sort);
        assert(option_trees(options@) =~= trees);
        options
    }

    /// The key that a choice of the option `sort` stands for.
    pub fn sort_for(choice: &str) -> (sort: CurrencySort)
        ensures
            sort == sort_of_choice(choice@),
    {
        if same_text(choice, "code") {
            CurrencySort::CurrencyCode
        } else if same_text(choice, "name") {
            CurrencySort::Name
        } else if same_text(choice, "state") {
            CurrencySort::State
        } else if same_text(choice, "reserves") {
            CurrencySort::Reserves
        } else if same_text(choice, "circulation") {
            CurrencySort::Circulation
        } else if same_text(choice, "value") {
            CurrencySort::Value
        } else {
            CurrencySort::CurrencyCode
        }
    }

    /// Reads the key to sort by and the number of currencies from the
    /// options of `list`.
    pub fn parse_options(&self, options: &Vec<CommandDataOption>) -> (r: Result<
        (CurrencySort, i64),
        String,
    >)
        ensures
            r is Ok <==> parse_spec(options@) is Ok,
            r is Ok ==> r->Ok_0 == parse_spec(options@)->Ok_0,
            r is Err ==> r->Err_0@ == parse_spec(options@)->Err_0,
    {
        if any_integer_below(options, "number", 1) {
            return Err(
                String::from_str("Can't have a negative number of currencies to return."),
            );
        }
        let sort = match find_string(options, "sort") {
            Some(choice) => Self::sort_for(choice.as_str()),
            None => CurrencySort::Name,
        };
        let number = match find_integer(options, "number") {
            Some(n) => n,
            None => DEFAULT_NUMBER,
        };
        Ok((sort, number))
    }

    /// Reads a command: the key to sort by and the number of currencies.
    /// The caller reads the currencies and has the answer made by
    /// `list_response`.
    pub fn handle_application_command(&mut self, data: &ApplicationCommandInteraction) -> (r:
        Result<(CurrencySort, i64), String>)
        ensures
            r is Ok <==> request_spec(*data) is Ok,
            r is Ok ==> r->Ok_0 == request_spec(*data)->Ok_0,
            r is Err ==> r->Err_0@ == request_spec(*data)->Err_0,
    {
        let options = match get_options(data) {
            Ok(o) => o,
            Err(e) => {
                return Err(
                    String::from_str("Error while parsing options: ").concat(
                        quoted_text(e.as_str()).as_str(),
                    ),
                );
            },
        };
        self.parse_options(options)
    }

    /// The table's row for a currency.
    pub fn row(currency: &CurrencyData, value_text: &str) -> (s: String)
        ensures
            s@ == row_of(*currency, value_text@),
    {
        let code = currency.currency_code.as_str();
        String::from_str("\n┃[\u{001b}[36m").concat(fit_text(code, 3).as_str()).concat(
            "\u{001b}[0m] \u{001b}[1m",
        ).concat(fit_text(currency.currency_name.as_str(), 30).as_str()).concat(
            "\u{001b}[0m┃",
        ).concat(fit_text(currency.state.as_str(), 30).as_str()).concat(
            "┃\u{001b}[1;33m",
        ).concat(
            pad_left_text(decimal_text(currency.reserves as i128).as_str(), 7).as_str(),
        ).concat("\u{001b}[0m ingots┃\u{001b}[1;34m").concat(
            pad_left_text(decimal_text(currency.circulation as i128).as_str(), 7).as_str(),
        ).concat("\u{001b}[0m ").concat(code).concat("┃\u{001b}[1;35m").concat(
            pad_right_text(value_text, 3).as_str(),
        ).concat("\u{001b}[0m ").concat(code).concat(" / ingot┃")
    }

    /// The table of the currencies, sorted by `sort`.
    pub fn table(sort: CurrencySort, currencies: &Vec<ListedCurrency>) -> (s: String)
        ensures
            s@ == table_of(sort, currencies@),
    {
        let head = String::from_str("\n┃").concat(
            heading_text("Code", sort == CurrencySort::CurrencyCode).as_str(),
        ).concat(" and ").concat(
            heading_text("Currency Name", sort == CurrencySort::Name).as_str(),
        ).concat("              ┃").concat(
            heading_text("Nation/State", sort == CurrencySort::State).as_str(),
        ).concat("                  ┃").concat(
            heading_text("Gold Reserves", sort == CurrencySort::Reserves).as_str(),
        ).concat(" ┃").concat(
            heading_text("Circulation", sort == CurrencySort::Circulation).as_str(),
        ).concat("┃").concat(heading_text("Value", sort == CurrencySort::Value).as_str()).concat(
            "            ┃",
        );
        let mut rows = String::new();
        let mut i: usize = 0;
        assert(currencies@.take(0) =~= Seq::<ListedCurrency>::empty());
        while i < currencies.len()
            invariant
                i <= currencies.len(),
                rows@ == rows_of(currencies@.take(i as int)),
            decreases currencies.len() - i,
        {
            proof {
                let next = currencies@.take(i + 1);
                assert(next.drop_last() =~= currencies@.take(i as int));
                assert(next.last() == currencies@[i as int]);
            }
            let row = Self::row(&currencies[i].currency, currencies[i].value_text.as_str());
            rows.append(row.as_str());
            i = i + 1;
        }
        assert(currencies@.take(currencies.len() as int) =~= currencies@);
        String::from_str(TABLE_TOP).concat(head.as_str()).concat(TABLE_RULE).concat(
            rows.as_str(),
        ).concat(TABLE_BOTTOM)
    }

    /// The answer that shows the table, for the member who asked.
    pub fn list_response(sort: CurrencySort, currencies: &Vec<ListedCurrency>) -> (r:
        CommandResponseObject)
        ensures
            r@ == (ResponseView {
                interactive: true,
                interactive_data: Some(Seq::empty()),
                data: Some(table_of(sort, currencies@)),
                feedback: None,
                embed: None,
                ephemeral: true,
                modal: false,
            }),
    {
        let table = Self::table(sort, currencies);
        CommandResponseObject::interactive(CreateComponents::new(), table.as_str(), true)
    }
}

} // verus!
