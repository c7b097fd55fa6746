//! `currency create`: making a new currency.

use vstd::prelude::*;
use vstd::string::StringExecFns;

use crate::discord::builder::{
    option_trees, CommandOptionType, CreateApplicationCommandOption, OptionTree,
};
use crate::discord::interaction::{
    find_integer_from, find_string, last_integer_from, last_string, ApplicationCommandInteraction,
    CommandDataOption,
};
use crate::handlers::{quoted, quoted_text};
use crate::response::{CommandResponseObject, ResponseView};
use crate::types::CurrencyData;
use crate::utils::text::{decimal, decimal_text};
use crate::utils::{get_options, options_of};

verus! {

/// The handler of `currency create`.
#[derive(Debug)]
pub struct CreateHandler {}

/// What a new currency is made of.
#[derive(Debug)]
pub struct NewCurrency {
    pub currency_code: String,
    pub currency_name: String,
    pub currency_state: String,
    pub initial_reserves: i64,
    pub initial_circulation: i64,
    pub owner: String,
}

/// A number that was given, or zero.
pub open spec fn or_zero(n: Option<i64>) -> i64 {
    match n {
        Some(n) => n,
        None => 0,
    }
}

/// What the options of `create` ask for: code, name, state, initial
/// reserves and initial circulation, in this order. The three texts are
/// required; a balance that is missing or negative counts as zero.
pub open spec fn parse_spec(options: Seq<CommandDataOption>) -> Result<
    (Seq<char>, Seq<char>, Seq<char>, i64, i64),
    Seq<char>,
> {
    if last_string(options, "code"@) is None {
        Err("Error: no currency code specified"@)
    } else if last_string(options, "name"@) is None {
        Err("Error: no currency name specified"@)
    } else if last_string(options, "state"@) is None {
        Err("Error: no currency state specified"@)
    } else {
        Ok(
            (
                last_string(options, "code"@)->0,
                last_string(options, "name"@)->0,
                last_string(options, "state"@)->0,
                or_zero(last_integer_from(options, "initial_reserve"@, 0)),
                or_zero(last_integer_from(options, "initial_circulation"@, 0)),
            ),
        )
    }
}

/// What a command asks for, or the text of the error.
pub open spec fn request_spec(data: ApplicationCommandInteraction) -> Result<
    (Seq<char>, Seq<char>, Seq<char>, i64, i64),
    Seq<char>,
> {
    match options_of(data) {
        Err(e) => Err("Error while getting options from command data: "@ + quoted(e)),
        Ok(options) => match parse_spec(options) {
            Ok(parsed) => Ok(parsed),
            Err(e) => Err("Error while parsing options: "@ + quoted(e)),
        },
    }
}

/// The text that tells everyone of a new currency.
pub open spec fn created_text(mention: Seq<char>, currency: CurrencyData) -> Seq<char> {
    mention + " created new currency:\n> **"@ + currency.currency_name@ + "** (*"@
        + currency.state@ + "*)\n> Currency Code: `"@ + currency.currency_code@
        + "`\n> Initial circulation: `"@ + decimal(currency.circulation as int)
        + currency.currency_code@ + "`\n> Initial gold reserve: `"@ + decimal(
        currency.reserves as int,
    ) + " ingots`"@
}

/// The options that the handler describes to the chat service.
pub open spec fn registered() -> Seq<OptionTree> {
    seq![
        OptionTree::new(
            CommandOptionType::String,
            "code",
            "A three-letter currency code. This must be unique.",
        ).length(3, 3).required(),
        OptionTree::new(
            CommandOptionType::String,
            "name",
            "The name of your new currency! This does *not* need to be unique",
        ).required(),
        OptionTree::new(
            CommandOptionType::String,
            "state",
            "The name of the nation or state in which this currency is based",
        ).required(),
        OptionTree::new(
            CommandOptionType::Integer,
            "initial_circulation",
            "The initial amount of your currency in circulation. Leave this blank if you're unsure",
        ),
        OptionTree::new(
            CommandOptionType::Integer,
            "initial_reserve",
            "The initial amount of gold in your federal reserve. Leave this blank if you're unsure.",
        ),
    ]
}

impl CreateHandler {
    /// The handler, which keeps nothing in mind.
    pub fn new() -> (h: Self)
        ensures
            h == (CreateHandler {  }),
    {
        CreateHandler {  }
    }

    /// The name of the handler's subcommand.
    pub fn get_name(&self) -> (name: &'static str)
        ensures
            name == "create",
    {
        "create"
    }

    /// What the handler's subcommand is for, in a few words.
    pub fn get_description(&self) -> (description: &'static str)
        ensures
            description == "Create a new currency",
    {
        "Create a new currency"
    }

    /// Whether the subcommand stands alone or groups actions.
    pub fn get_option_kind(&self) -> (kind: CommandOptionType)
        ensures
            kind == CommandOptionType::SubCommand,
    {
        CommandOptionType::SubCommand
    }

    /// A required code of three characters, a required name, a required
    /// state, and the two initial balances.
    pub fn register(&self) -> (options: Vec<CreateApplicationCommandOption>)
        ensures
            option_trees(options@) == registered(),
    {
        let code = CreateApplicationCommandOption::new(
            CommandOptionType::String,
            "code",
            "A three-letter currency code. This must be unique.",
        ).length(3, 3).required();
        let name = CreateApplicationCommandOption::new(
            CommandOptionType::String,
            "name",
            "The name of your new currency! This does *not* need to be unique",
        ).required();
        let state = CreateApplicationCommandOption::new(
            CommandOptionType::String,
            "state",
            "The name of the nation or state in which this currency is based",
        ).required();
        let circulation = CreateApplicationCommandOption::new(
            CommandOptionType::Integer,
            "initial_circulation",
            "The initial amount of your currency in circulation. Leave this blank if you're unsure",
        );
        let reserve = CreateApplicationCommandOption::new(
            CommandOptionType::Integer,
            "initial_reserve",
            "The initial amount of gold in your federal reserve. Leave this blank if you're unsure.",
        );
        let ghost trees = seq![code@, name@, state@, circulation@, reserve@];
        let mut options: Vec<CreateApplicationCommandOption> = Vec::new();
        options.push(code);
        options.push(name);
        options.push(state);
        options.push(circulation);
        options.push(reserve);
        assert(option_trees(options@) =~= trees);
        options
    }

    /// Reads code, name, state, initial reserves and initial circulation
    /// from the options of `create`.
    pub fn parse_options(&self, options: &Vec<CommandDataOption>) -> (r: Result<
        (String, String, String, i64, i64),
        String,
    >)
        ensures
            r is Ok <==> parse_spec(options@) is Ok,
            r is Ok ==> (r->Ok_0.0@, r->Ok_0.1@, r->Ok_0.2@, r->Ok_0.3, r->Ok_0.4) == parse_spec(
                options@,
            )->Ok_0,
            r is Err ==> r->Err_0@ == parse_spec(options@)->Err_0,
    {
        let currency_code = find_string(options, "code");
        let currency_name = find_string(options, "name");
        let currency_state = find_string(options, "state");
        let initial_circulation: i64 = match find_integer_from(options, "initial_circulation", 0) {
            Some(n) => n,
            None => 0,
        };
        let initial_reserves: i64 = match find_integer_from(options, "initial_reserve", 0) {
            Some(n) => n,
            None => 0,
        };
        match currency_code {
            None => Err(String::from_str("Error: no currency code specified")),
            Some(code) => match currency_name {
                None => Err(String::from_str("Error: no currency name specified")),
                Some(name) => match currency_state {
                    None => Err(String::from_str("Error: no currency state specified")),
                    Some(state) => Ok((code, name, state, initial_reserves, initial_circulation)),
                },
            },
        }
    }

    /// Reads a command: what the new currency is made of, with the member
    /// who sent the command as its owner. The caller then stores the
    /// currency and has the answer worded by `created_response`.
    pub fn handle_application_command(&mut self, data: &ApplicationCommandInteraction) -> (r:
        Result<NewCurrency, String>)
        ensures
            r is Ok <==> request_spec(*data) is Ok,
            r is Ok ==> (
                r->Ok_0.currency_code@,
                r->Ok_0.currency_name@,
                r->Ok_0.currency_state@,
                r->Ok_0.initial_reserves,
                r->Ok_0.initial_circulation,
            ) == request_spec(*data)->Ok_0 && r->Ok_0.owner@ == data.user.name@,
            r is Err ==> r->Err_0@ == request_spec(*data)->Err_0,
    {
        let options = match get_options(data) {
            Ok(o) => o,
            Err(e) => {
                return Err(
                    String::from_str("Error while getting options from command data: ").concat(
                        quoted_text(e.as_str()).as_str(),
                    ),
                );
            },
        };
        match self.parse_options(options) {
            Ok((code, name, state, reserves, circulation)) => Ok(
                NewCurrency {
                    currency_code: code,
                    currency_name: name,
                    currency_state: state,
                    initial_reserves: reserves,
                    initial_circulation: circulation,
                    owner: data.user.name.clone(),
                },
            ),
            Err(e) => Err(
                String::from_str("Error while parsing options: ").concat(
                    quoted_text(e.as_str()).as_str(),
                ),
            ),
        }
    }

    /// The answer once the currency has been stored: the news for everyone.
    pub fn created_response(data: &ApplicationCommandInteraction, currency: &CurrencyData) -> (r:
        CommandResponseObject)
        ensures
            r@ == (ResponseView {
                interactive: false,
                interactive_data: None,
                data: Some(created_text(data.user.mention_spec(), *currency)),
                feedback: None,
                embed: None,
                ephemeral: false,
                modal: false,
            }),
    {
        let text = data.user.mention().concat(" created new currency:\n> **").concat(
            currency.currency_name.as_str(),
        ).concat("** (*").concat(currency.state.as_str()).concat(
            "*)\n> Currency Code: `",
        ).concat(currency.currency_code.as_str()).concat("`\n> Initial circulation: `").concat(
            decimal_text(currency.circulation as i128).as_str(),
        ).concat(currency.currency_code.as_str()).concat(
            "`\n> Initial gold reserve: `",
        ).concat(decimal_text(currency.reserves as i128).as_str()).concat(" ingots`");
        CommandResponseObject::text(text.as_str())
    }
}

} // verus!
