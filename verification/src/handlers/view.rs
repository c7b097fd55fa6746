//! `currency view`: one currency in detail, with its latest chart.

use vstd::prelude::*;
use vstd::string::StringExecFns;

use crate::discord::builder::{
    option_trees, CommandOptionType, CreateApplicationCommandOption, CreateEmbed, EmbedView,
    OptionTree,
};
use crate::discord::interaction::{
    find_string, last_string, ApplicationCommandInteraction, CommandDataOption,
};
use crate::handlers::{quoted, quoted_text};
use crate::response::{CommandResponseObject, ResponseView};
use crate::types::{CurrencyData, RecordData};
use crate::utils::text::{decimal, decimal_text};
use crate::utils::{get_options, options_of};
use crate::workers::chart::{chart_url, chart_url_of};

verus! {

/// The handler of `currency view`.
#[derive(Debug)]
pub struct ViewHandler {}

/// The code of the currency that the options of `view` name.
pub open spec fn parse_spec(options: Seq<CommandDataOption>) -> Result<Seq<char>, Seq<char>> {
    match last_string(options, "code"@) {
        Some(code) => Ok(code),
        None => Err("Couldn't get code from options"@),
    }
}

/// The code of the currency that a command names, or the text of the error.
pub open spec fn request_spec(data: ApplicationCommandInteraction) -> Result<Seq<char>, Seq<char>> {
    match options_of(data) {
        Err(e) => Err("Error while parsing options: "@ + quoted(e)),
        Ok(options) => parse_spec(options),
    }
}

/// The text that describes a currency, with its value as the text
/// `value_text`.
pub open spec fn description_of(currency: CurrencyData, value_text: Seq<char>) -> Seq<char> {
    "> Nation/State: _"@ + currency.state@ + "_\n> Reserves: `"@ + decimal(
        currency.reserves as int,
    ) + " ingots`\n> Circulation: `"@ + decimal(currency.circulation as int) + " "@
        + currency.currency_code@ + "`\n> Value: `"@ + value_text + " ingot / "@
        + currency.currency_code@ + "`"@
}

/// The warning that stands in for the chart of a currency without records.
pub open spec fn no_records_warning() -> Seq<char> {
    "\n```ansi\n\u{001b}[1;33mWarning:\u{001b}[0m No past records available for this currency```"@
}

/// The embed that shows a currency: its name as the title, its description,
/// and the chart of its latest record, or a warning where it has no record.
pub open spec fn embed_of(currency: CurrencyData, value_text: Seq<char>, latest: Option<RecordData>)
    -> EmbedView {
    match latest {
        Some(record) => EmbedView {
            title: Some(currency.currency_name@),
            description: Some(description_of(currency, value_text)),
            image: Some(chart_url_of(currency.currency_id as int, record.id() as int)),
        },
        None => EmbedView {
            title: Some(currency.currency_name@),
            description: Some(description_of(currency, value_text) + no_records_warning()),
            image: None,
        },
    }
}

/// The options that the handler describes to the chat service.
pub open spec fn registered() -> Seq<OptionTree> {
    seq![
        OptionTree::new(
            CommandOptionType::String,
            "code",
            "Three-letter currency code to view",
        ).required(),
    ]
}

impl ViewHandler {
    /// The handler, which keeps nothing in mind.
    pub fn new() -> (h: Self)
        ensures
            h == (ViewHandler {  }),
    {
        ViewHandler {  }
    }

    /// The name of the handler's subcommand.
    pub fn get_name(&self) -> (name: &'static str)
        ensures
            name == "view",
    {
        "view"
    }

    /// What the handler's subcommand is for, in a few words.
    pub fn get_description(&self) -> (description: &'static str)
        ensures
            description == "View detailed information about a currency",
    {
        "View detailed information about a currency"
    }

    /// Whether the subcommand stands alone or groups actions.
    pub fn get_option_kind(&self) -> (kind: CommandOptionType)
        ensures
            kind == CommandOptionType::SubCommand,
    {
        CommandOptionType::SubCommand
    }

    /// A required code.
    pub fn register(&self) -> (options: Vec<CreateApplicationCommandOption>)
        ensures
            option_trees(options@) == registered(),
    {
        let code = CreateApplicationCommandOption::new(
            CommandOptionType::String,
            "code",
            "Three-letter currency code to view",
        ).required();
        let ghost trees = seq![code@];
        let mut options: Vec<CreateApplicationCommandOption> = Vec::new();
        options.push(code);
        assert(option_trees(options@) =~= trees);
        options
    }

    /// Reads the currency's code from the options of `view`.
    pub fn parse_options(&self, options: &Vec<CommandDataOption>) -> (r: Result<String, String>)
        ensures
            r is Ok <==> parse_spec(options@) is Ok,
            r is Ok ==> r->Ok_0@ == parse_spec(options@)->Ok_0,
            r is Err ==> r->Err_0@ == parse_spec(options@)->Err_0,
    {
        match find_string(options, "code") {
            Some(code) => Ok(code),
            None => Err(String::from_str("Couldn't get code from options")),
        }
    }

    /// Reads a command: the code of the currency to look up. The caller
    /// looks up the currency and its latest record and has the answer made
    /// by `view_response`.
    pub fn handle_application_command(&mut self, data: &ApplicationCommandInteraction) -> (r:
        Result<String, String>)
        ensures
            r is Ok <==> request_spec(*data) is Ok,
            r is Ok ==> r->Ok_0@ == request_spec(*data)->Ok_0,
            r is Err ==> r->Err_0@ == request_spec(*data)->Err_0,
    {
        let options = match get_options(data) {
            Ok(o) => o,
            Err(e) => {
                return Err(
                    String::from_str("Error while parsing options: ").concat(
                        quoted_text(e.as_str()).as_str(),
                    ),
                );
            },
        };
        self.parse_options(options)
    }

    /// The answer that shows a currency. `value_text` is the currency's
    /// value as it is to be shown, and `latest` its newest record.
    pub fn view_response(currency: &CurrencyData, value_text: &str, latest: Option<&RecordData>)
        -> (r: CommandResponseObject)
        ensures
            r@ == (ResponseView {
                interactive: false,
                interactive_data: None,
                data: None,
                feedback: None,
                embed: Some(
                    embed_of(
                        *currency,
                        value_text@,
                        match latest {
                            Some(record) => Some(*record),
                            None => None,
                        },
                    ),
                ),
                ephemeral: false,
                modal: false,
            }),
    {
        let mut description = String::from_str("> Nation/State: _").concat(
            currency.state.as_str(),
        ).concat("_\n> Reserves: `").concat(
            decimal_text(currency.reserves as i128).as_str(),
        ).concat(" ingots`\n> Circulation: `").concat(
            decimal_text(currency.circulation as i128).as_str(),
        ).concat(" ").concat(currency.currency_code.as_str()).concat("`\n> Value: `").concat(
            value_text,
        ).concat(" ingot / ").concat(currency.currency_code.as_str()).concat("`");
        let image = match latest {
            Some(record) => Some(chart_url(currency.currency_id, record.record_id())),
            None => {
                description.append(
                    "\n```ansi\n\u{001b}[1;33mWarning:\u{001b}[0m No past records available for this currency```",
                );
                None
            },
        };
        let embed = CreateEmbed {
            title: Some(currency.currency_name.clone()),
            description: Some(description),
            image,
        };
        CommandResponseObject::embed(embed)
    }
}

} // verus!
