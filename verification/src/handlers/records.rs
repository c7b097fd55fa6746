//! `currency records`: a currency's past records in a table.

use vstd::prelude::*;
use vstd::string::StringExecFns;

use crate::discord::builder::{
    option_trees, CommandOptionType, CreateApplicationCommandOption, CreateComponents, OptionTree,
};
use crate::discord::interaction::{
    any_integer_below, find_integer, find_string, has_integer_below, last_integer, last_string,
    ApplicationCommandInteraction, CommandDataOption,
};
use crate::handlers::{quoted, quoted_text};
use crate::response::{CommandResponseObject, ResponseView};
use crate::types::{CurrencyData, RecordData};
use crate::utils::text::{fit, fit_text, pad_right, pad_right_text};
use crate::utils::{get_options, options_of};

verus! {

/// The handler of `currency records`.
#[derive(Debug)]
pub struct RecordsHandler {}

/// A record with its values as the texts that the table shows.
#[derive(Debug)]
pub struct ListedRecord {
    pub record: RecordData,
    pub opening_text: String,
    pub closing_text: String,
    pub delta_text: String,
}

/// How many records the table shows where no number is asked for.
pub const DEFAULT_NUMBER: i64 = 10;

/// The top of the table.
pub const TABLE_TOP: &'static str = "┏━━━━━━━━━━┳━━━━━━━━━━━━━━━━━┳━━━━━━━━━━━━━━━━━┳━━━━━━━━━━━━━━━━┳━━━━━━━━━━━━━━┓\n";

/// The table's head.
pub const TABLE_HEAD: &'static str = "┃Date      ┃Value at Opening ┃Value at Closing ┃Change in Value ┃Performance   ┃\n";

/// The line between the table's head and its rows.
pub const TABLE_RULE: &'static str = "┣━━━━━━━━━━╋━━━━━━━━━━━━━━━━━╋━━━━━━━━━━━━━━━━━╋━━━━━━━━━━━━━━━━╋━━━━━━━━━━━━━━┫";

/// The bottom of the table.
pub const TABLE_BOTTOM: &'static str = "\n┗━━━━━━━━━━┻━━━━━━━━━━━━━━━━━┻━━━━━━━━━━━━━━━━━┻━━━━━━━━━━━━━━━━┻━━━━━━━━━━━━━━┛```";

/// What the options of `records` ask for: the number of records, which is
/// ten where none is given and must be positive, and the currency's code.
pub open spec fn parse_spec(options: Seq<CommandDataOption>) -> Result<(i64, Seq<char>), Seq<char>> {
    if has_integer_below(options, "number"@, 1) {
        Err("Number cannot be less than or equal to zero"@)
    } else {
        Ok(
            (
                match last_integer(options, "number"@) {
                    Some(n) => n,
                    None => DEFAULT_NUMBER,
                },
                match last_string(options, "code"@) {
                    Some(code) => code,
                    None => Seq::empty(),
                },
            ),
        )
    }
}

/// What a command asks for, or the text of the error.
pub open spec fn request_spec(data: ApplicationCommandInteraction) -> Result<
    (i64, Seq<char>),
    Seq<char>,
> {
    match options_of(data) {
        Err(e) => Err("Error while getting options from command data: "@ + quoted(e)),
        Ok(options) => match parse_spec(options) {
            Ok(parsed) => Ok(parsed),
            Err(e) => Err("Error while parsing options: "@ + quoted(e)),
        },
    }
}

/// How a day's growth is called.
pub open spec fn performance_of(growth: int) -> Seq<char> {
    if growth == 0 {
        "Holding Steady"@
    } else if growth < 0 {
        "In Decline"@
    } else {
        "Gaining Value"@
    }
}

/// The colour in which a day's growth is shown.
pub open spec fn colour_of(growth: int) -> Seq<char> {
    if growth == 0 {
        "\u{001b}[1m"@
    } else if growth < 0 {
        "\u{001b}[1;31m"@
    } else {
        "\u{001b}[1;32m"@
    }
}

/// The table's row for a record of the currency with the code `code`.
pub open spec fn row_of(listed: ListedRecord, code: Seq<char>) -> Seq<char> {
    "\n┃"@ + listed.record.date().text_spec() + "┃\u{001b}[1;35m"@ + pad_right(
        listed.opening_text@,
        5,
    ) + "\u{001b}[0m ingot / "@ + code + "┃\u{001b}[1;35m"@ + pad_right(listed.closing_text@, 5)
        + "\u{001b}[0m ingot / "@ + code + "┃"@ + colour_of(listed.record.growth_sign())
        + pad_right(listed.delta_text@, 16) + "\u{001b}[0m┃"@ + colour_of(
        listed.record.growth_sign(),
    ) + fit(performance_of(listed.record.growth_sign()), 14) + "\u{001b}[0m┃"@
}

/// The table's rows.
pub open spec fn rows_of(records: Seq<ListedRecord>, code: Seq<char>) -> Seq<char>
    decreases records.len(),
{
    if records.len() == 0 {
        Seq::empty()
    } else {
        rows_of(records.drop_last(), code) + row_of(records.last(), code)
    }
}

/// The whole table, under the currency's code and name.
pub open spec fn table_of(currency: CurrencyData, records: Seq<ListedRecord>) -> Seq<char> {
    "```ansi\nRecord list for [\u{001b}[36m"@ + currency.currency_code@ + "\u{001b}[0m] \u{001b}[1m"@
        + currency.currency_name@ + "\u{001b}[0m\n\n"@ + TABLE_TOP@ + TABLE_HEAD@ + TABLE_RULE@
        + rows_of(records, currency.currency_code@) + TABLE_BOTTOM@
}

/// The options that the handler describes to the chat service.
pub open spec fn registered() -> Seq<OptionTree> {
    seq![
        OptionTree::new(
            CommandOptionType::String,
            "code",
            "Three-letter currency code to view records for",
        ).required().length(3, 3),
        OptionTree::new(
            CommandOptionType::Integer,
            "number",
            "Maximum number of records to fetch",
        ),
    ]
}

impl RecordsHandler {
    /// The handler, which keeps nothing in mind.
    pub fn new() -> (h: Self)
        ensures
            h == (RecordsHandler {  }),
    {
        RecordsHandler {  }
    }

    /// The name of the handler's subcommand.
    pub fn get_name(&self) -> (name: &'static str)
        ensures
            name == "records",
    {
        "records"
    }

    /// What the handler's subcommand is for, in a few words.
    pub fn get_description(&self) -> (description: &'static str)
        ensures
            description == "View past currency end-of-day records",
    {
        "View past currency end-of-day records"
    }

    /// Whether the subcommand stands alone or groups actions.
    pub fn get_option_kind(&self) -> (kind: CommandOptionType)
        ensures
            kind == CommandOptionType::SubCommand,
    {
        CommandOptionType::SubCommand
    }

    /// A required code of three characters, and a number.
    pub fn register(&self) -> (options: Vec<CreateApplicationCommandOption>)
        ensures
            option_trees(options@) == registered(),
    {
        let code = CreateApplicationCommandOption::new(
            CommandOptionType::String,
            "code",
            "Three-letter currency code to view records for",
        ).required().length(3, 3);
        let number = CreateApplicationCommandOption::new(
            CommandOptionType::Integer,
            "number",
            "Maximum number of records to fetch",
        );
        let ghost trees = seq![code@, number@];
        let mut options: Vec<CreateApplicationCommandOption> = Vec::new();
        options.push(code);
        options.push(number);
        assert(option_trees(options@) =~= trees);
        options
    }

    /// Reads the number of records and the currency's code from the
    /// options of `records`.
    pub fn parse_options(&self, options: &Vec<CommandDataOption>) -> (r: Result<
        (i64, String),
        String,
    >)
        ensures
            r is Ok <==> parse_spec(options@) is Ok,
            r is Ok ==> (r->Ok_0.0, r->Ok_0.1@) == parse_spec(options@)->Ok_0,
            r is Err ==> r->Err_0@ == parse_spec(options@)->Err_0,
    {
        if any_integer_below(options, "number", 1) {
            return Err(String::from_str("Number cannot be less than or equal to zero"));
        }
        let number = match find_integer(options, "number") {
            Some(n) => n,
            None => DEFAULT_NUMBER,
        };
        let currency_code = match find_string(options, "code") {
            Some(code) => code,
            None => String::new(),
        };
        Ok((number, currency_code))
    }

    /// Reads a command: the number of records and the currency's code. The
    /// caller reads the currency and its records and has the answer made by
    /// `records_response`.
    pub fn handle_application_command(&mut self, data: &ApplicationCommandInteraction) -> (r:
        Result<(i64, String), String>)
        ensures
            r is Ok <==> request_spec(*data) is Ok,
            r is Ok ==> (r->Ok_0.0, r->Ok_0.1@) == request_spec(*data)->Ok_0,
            r is Err ==> r->Err_0@ == request_spec(*data)->Err_0,
    {
        let options = match get_options(data) {
            Ok(o) => o,
            Err(e) => {
                return Err(
                    String::from_str("Error while getting options from command data: ").concat(
                        quoted_text(e.as_str()).as_str(),
                    ),
                );
            },
        };
        match self.parse_options(options) {
            Ok(parsed) => Ok(parsed),
            Err(e) => Err(
                String::from_str("Error while parsing options: ").concat(
                    quoted_text(e.as_str()).as_str(),
                ),
            ),
        }
    }

    /// How a day's growth is called.
    pub fn performance(growth: i16) -> (s: &'static str)
        ensures
            s@ == performance_of(growth as int),
    {
        if growth == 0 {
            "Holding Steady"
        } else if growth < 0 {
            "In Decline"
        } else {
            "Gaining Value"
        }
    }

    /// The colour in which a day's growth is shown.
    pub fn colour(growth: i16) -> (s: &'static str)
        ensures
            s@ == colour_of(growth as int),
    {
        if growth == 0 {
            "\u{001b}[1m"
        } else if growth < 0 {
            "\u{001b}[1;31m"
        } else {
            "\u{001b}[1;32m"
        }
    }

    /// The table's row for a record of the currency with the code `code`.
    pub fn row(listed: &ListedRecord, code: &str) -> (s: String)
        ensures
            s@ == row_of(*listed, code@),
    {
        let growth = listed.record.growth();
        let colour = Self::colour(growth);
        String::from_str("\n┃").concat(listed.record.record_date().text().as_str()).concat(
            "┃\u{001b}[1;35m",
        ).concat(pad_right_text(listed.opening_text.as_str(), 5).as_str()).concat(
            "\u{001b}[0m ingot / ",
        ).concat(code).concat("┃\u{001b}[1;35m").concat(
            pad_right_text(listed.closing_text.as_str(), 5).as_str(),
        ).concat("\u{001b}[0m ingot / ").concat(code).concat("┃").concat(colour).concat(
            pad_right_text(listed.delta_text.as_str(), 16).as_str(),
        ).concat("\u{001b}[0m┃").concat(colour).concat(
            fit_text(Self::performance(growth), 14).as_str(),
        ).concat("\u{001b}[0m┃")
    }

    /// The table of a currency's records.
    pub fn table(currency: &CurrencyData, records: &Vec<ListedRecord>) -> (s: String)
        ensures
            s@ == table_of(*currency, records@),
    {
        let code = currency.currency_code.as_str();
        let mut rows = String::new();
        let mut i: usize = 0;
        assert(records@.take(0) =~= Seq::<ListedRecord>::empty());
        while i < records.len()
            invariant
                i <= records.len(),
                code@ == currency.currency_code@,
                rows@ == rows_of(records@.take(i as int), code@),
            decreases records.len() - i,
        {
            proof {
                let next = records@.take(i + 1);
                assert(next.drop_last() =~= records@.take(i as int));
                assert(next.last() == records@[i as int]);
            }
            let row = Self::row(&records[i], code);
            rows.append(row.as_str());
            i = i + 1;
        }
        assert(records@.take(records.len() as int) =~= records@);
        String::from_str("```ansi\nRecord list for [\u{001b}[36m").concat(code).concat(
            "\u{001b}[0m] \u{001b}[1m",
        ).concat(currency.currency_name.as_str()).concat("\u{001b}[0m\n\n").concat(
            TABLE_TOP,
        ).concat(TABLE_HEAD).concat(TABLE_RULE).concat(rows.as_str()).concat(TABLE_BOTTOM)
    }

    /// The answer that shows the table, for the member who asked.
    pub fn records_response(currency: &CurrencyData, records: &Vec<ListedRecord>) -> (r:
        CommandResponseObject)
        ensures
            r@ == (ResponseView {
                interactive: true,
                interactive_data: Some(Seq::empty()),
                data: Some(table_of(*currency, records@)),
                feedback: None,
                embed: None,
                ephemeral: true,
                modal: false,
            }),
    {
        let table = Self::table(currency, records);
        CommandResponseObject::interactive(CreateComponents::new(), table.as_str(), true)
    }
}

} // verus!
