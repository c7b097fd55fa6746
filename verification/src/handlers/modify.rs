//! `currency modify`: changing a currency's name, state or code.

use vstd::prelude::*;
use vstd::string::StringExecFns;

use crate::commands::manage::ModifyMetaType;
use crate::discord::builder::{
    option_trees, text_of, CommandOptionType, CreateApplicationCommandOption, CreateComponents,
    OptionTree,
};
use crate::discord::interaction::{
    find_string, last_string, ApplicationCommandInteraction, CommandDataOption,
};
use crate::handlers::{action_name_of, chosen_action, quoted, quoted_text};
use crate::response::{CommandResponseObject, ResponseView};
use crate::types::CurrencyData;
use crate::utils::text::same_text;
use crate::utils::{get_options, options_of};

verus! {

/// The handler of `currency modify`.
#[derive(Debug)]
pub struct ModifyHandler {}

/// The options of `currency modify`, each where it was given.
#[derive(Debug)]
pub struct ModifyOptions {
    pub code: Option<String>,
    pub name: Option<String>,
    pub state: Option<String>,
    pub old_code: Option<String>,
    pub new_code: Option<String>,
}

/// The options of `currency modify`, as texts.
pub struct ModifyOptionsView {
    pub code: Option<Seq<char>>,
    pub name: Option<Seq<char>>,
    pub state: Option<Seq<char>>,
    pub old_code: Option<Seq<char>>,
    pub new_code: Option<Seq<char>>,
}

impl ModifyOptions {
    /// The options, as texts.
    pub open spec fn view(self) -> ModifyOptionsView {
        ModifyOptionsView {
            code: text_of(self.code),
            name: text_of(self.name),
            state: text_of(self.state),
            old_code: text_of(self.old_code),
            new_code: text_of(self.new_code),
        }
    }
}

/// A change of one part of a currency's description.
#[derive(Debug)]
pub struct MetaChange {
    /// The code of the currency to change.
    pub currency_code: String,
    /// The part to change.
    pub kind: ModifyMetaType,
    /// What the part becomes.
    pub data: String,
}

/// What the options of `modify` hold.
pub open spec fn parse_spec(options: Seq<CommandDataOption>) -> ModifyOptionsView {
    ModifyOptionsView {
        code: last_string(options, "code"@),
        name: last_string(options, "name"@),
        state: last_string(options, "state"@),
        old_code: last_string(options, "old_code"@),
        new_code: last_string(options, "new_code"@),
    }
}

/// The text that reports a change that the options do not describe.
pub open spec fn bad_arguments_text() -> Seq<char> {
    "Error while updating currency data: Protocol(\"Error in command arguments\")"@
}

/// The change that the action `action` with the options `options` asks
/// for: of the code, from the old one to the new one; of the state or of the
/// name, for the currency of the given code. The currency's code, the part
/// and its new text, in this order.
pub open spec fn change_spec(action: Seq<char>, options: ModifyOptionsView) -> Option<
    (Seq<char>, ModifyMetaType, Seq<char>),
> {
    if action == "code"@ {
        if options.old_code is Some && options.new_code is Some {
            Some((options.old_code->0, ModifyMetaType::Code, options.new_code->0))
        } else {
            None
        }
    } else if action == "state"@ {
        if options.code is Some && options.state is Some {
            Some((options.code->0, ModifyMetaType::State, options.state->0))
        } else {
            None
        }
    } else if action == "name"@ {
        if options.code is Some && options.name is Some {
            Some((options.code->0, ModifyMetaType::Name, options.name->0))
        } else {
            None
        }
    } else {
        None
    }
}

/// The change that a command asks for, or the text of the error.
pub open spec fn request_spec(data: ApplicationCommandInteraction) -> Result<
    (Seq<char>, ModifyMetaType, Seq<char>),
    Seq<char>,
> {
    match options_of(data) {
        Err(e) => Err("Error while getting options from command data: "@ + quoted(e)),
        Ok(options) => match action_name_of(data) {
            None => Err(
                "Error while parsing options: Couldn't get which sub-subcommand to run"@,
            ),
            Some(action) => match change_spec(action, parse_spec(options)) {
                Some(change) => Ok(change),
                None => Err(bad_arguments_text()),
            },
        },
    }
}

/// How the changed currency is named in the news: by its name after a
/// change of code or state, and by its code otherwise.
pub open spec fn display_of(action: Seq<char>, currency: CurrencyData) -> Seq<char> {
    if action == "code"@ || action == "state"@ {
        "**"@ + currency.currency_name@ + "**"@
    } else {
        "`"@ + currency.currency_code@ + "`"@
    }
}

/// What the news says has changed.
pub open spec fn modification_of(action: Seq<char>, currency: CurrencyData) -> Seq<char> {
    if action == "code"@ {
        "Currency Code -> `"@ + currency.currency_code@ + "`"@
    } else if action == "state"@ {
        "Nation/State -> *"@ + currency.state@ + "*"@
    } else if action == "name"@ {
        "Currency Name -> **"@ + currency.currency_name@ + "**"@
    } else {
        Seq::empty()
    }
}

/// The options that the handler describes to the chat service.
pub open spec fn registered() -> Seq<OptionTree> {
    seq![
        OptionTree::new(
            CommandOptionType::SubCommand,
            "name",
            "Modify currency name",
        ).sub_option(
            OptionTree::new(
                CommandOptionType::String,
                "code",
                "Three-letter currency code to modify",
            ).length(3, 3).required(),
        ).sub_option(
            OptionTree::new(
                CommandOptionType::String,
                "name",
                "New name of the currency",
            ).required(),
        ),
        OptionTree::new(
            CommandOptionType::SubCommand,
            "state",
            "Modify nation/state of origin of a currency",
        ).sub_option(
            OptionTree::new(
                CommandOptionType::String,
                "code",
                "Three-letter currency code to modify",
            ).length(3, 3).required(),
        ).sub_option(
            OptionTree::new(
                CommandOptionType::String,
                "state",
                "New nation/state of the currency",
            ).required(),
        ),
        OptionTree::new(
            CommandOptionType::SubCommand,
            "code",
            "Modify three-letter currency code",
        ).sub_option(
            OptionTree::new(
                CommandOptionType::String,
                "old_code",
                "Old three-letter currency code",
            ).length(3, 3).required(),
        ).sub_option(
            OptionTree::new(
                CommandOptionType::String,
                "new_code",
                "New three-letter currency code",
            ).length(3, 3).required(),
        ),
    ]
}

impl ModifyHandler {
    /// The handler, which keeps nothing in mind.
    pub fn new() -> (h: Self)
        ensures
            h == (ModifyHandler {  }),
    {
        ModifyHandler {  }
    }

    /// The name of the handler's subcommand.
    pub fn get_name(&self) -> (name: &'static str)
        ensures
            name == "modify",
    {
        "modify"
    }

    /// What the handler's subcommand is for, in a few words.
    pub fn get_description(&self) -> (description: &'static str)
        ensures
            description == "Modify currency name, state or currency code",
    {
        "Modify currency name, state or currency code"
    }

    /// Whether the subcommand stands alone or groups actions.
    pub fn get_option_kind(&self) -> (kind: CommandOptionType)
        ensures
            kind == CommandOptionType::SubCommandGroup,
    {
        CommandOptionType::SubCommandGroup
    }

    /// The subcommands `name`, `state` and `code`.
    pub fn register(&self) -> (options: Vec<CreateApplicationCommandOption>)
        ensures
            option_trees(options@) == registered(),
    {
        let name = CreateApplicationCommandOption::new(
            CommandOptionType::SubCommand,
            "name",
            "Modify currency name",
        ).sub_option(
            CreateApplicationCommandOption::new(
                CommandOptionType::String,
                "code",
                "Three-letter currency code to modify",
            ).length(3, 3).required(),
        ).sub_option(
            CreateApplicationCommandOption::new(
                CommandOptionType::String,
                "name",
                "New name of the currency",
            ).required(),
        );
        let state = CreateApplicationCommandOption::new(
            CommandOptionType::SubCommand,
            "state",
            "Modify nation/state of origin of a currency",
        ).sub_option(
            CreateApplicationCommandOption::new(
                CommandOptionType::String,
                "code",
                "Three-letter currency code to modify",
            ).length(3, 3).required(),
        ).sub_option(
            CreateApplicationCommandOption::new(
                CommandOptionType::String,
                "state",
                "New nation/state of the currency",
            ).required(),
        );
        let code = CreateApplicationCommandOption::new(
            CommandOptionType::SubCommand,
            "code",
            "Modify three-letter currency code",
        ).sub_option(
            CreateApplicationCommandOption::new(
                CommandOptionType::String,
                "old_code",
                "Old three-letter currency code",
            ).length(3, 3).required(),
        ).sub_option(
            CreateApplicationCommandOption::new(
                CommandOptionType::String,
                "new_code",
                "New three-letter currency code",
            ).length(3, 3).required(),
        );
        let ghost trees = seq![name@, state@, code@];
        let mut options: Vec<CreateApplicationCommandOption> = Vec::new();
        options.push(name);
        options.push(state);
        options.push(code);
        assert(option_trees(options@) =~= trees);
        options
    }

    /// Reads the options of `modify`.
    pub fn parse_options(&self, options: &Vec<CommandDataOption>) -> (r: Result<
        ModifyOptions,
        String,
    >)
        ensures
            r is Ok,
            r->Ok_0@ == parse_spec(options@),
    {
        Ok(
            ModifyOptions {
                code: find_string(options, "code"),
                name: find_string(options, "name"),
                state: find_string(options, "state"),
                old_code: find_string(options, "old_code"),
                new_code: find_string(options, "new_code"),
            },
        )
    }

    /// Reads a command: the change that it asks for. The caller makes the
    /// change and has the answer worded by `modified_response`.
    pub fn handle_application_command(&mut self, data: &ApplicationCommandInteraction) -> (r:
        Result<MetaChange, String>)
        ensures
            r is Ok <==> request_spec(*data) is Ok,
            r is Ok ==> (r->Ok_0.currency_code@, r->Ok_0.kind, r->Ok_0.data@) == request_spec(
                *data,
            )->Ok_0,
            r is Err ==> r->Err_0@ == request_spec(*data)->Err_0,
    {
        let option_data = match get_options(data) {
            Ok(o) => o,
            Err(e) => {
                return Err(
                    String::from_str("Error while getting options from command data: ").concat(
                        quoted_text(e.as_str()).as_str(),
                    ),
                );
            },
        };
        let options = match self.parse_options(option_data) {
            Ok(o) => o,
            Err(e) => {
                return Err(e);
            },
        };
        let action = match chosen_action(data) {
            Some(a) => a,
            None => {
                return Err(
                    String::from_str(
                        "Error while parsing options: Couldn't get which sub-subcommand to run",
                    ),
                );
            },
        };
        let change = if action.is_named("code") {
            match (options.old_code, options.new_code) {
                (Some(old_code), Some(new_code)) => Some(
                    MetaChange {
                        currency_code: old_code,
                        kind: ModifyMetaType::Code,
                        data: new_code,
                    },
                ),
                _ => None,
            }
        } else if action.is_named("state") {
            match (options.code, options.state) {
                (Some(code), Some(state)) => Some(
                    MetaChange { currency_code: code, kind: ModifyMetaType::State, data: state },
                ),
                _ => None,
            }
        } else if action.is_named("name") {
            match (options.code, options.name) {
                (Some(code), Some(name)) => Some(
                    MetaChange { currency_code: code, kind: ModifyMetaType::Name, data: name },
                ),
                _ => None,
            }
        } else {
            None
        };
        match change {
            Some(change) => Ok(change),
            None => Err(
                String::from_str(
                    "Error while updating currency data: Protocol(\"Error in command arguments\")",
                ),
            ),
        }
    }

    /// The answer once the change has been made: praise for the member who
    /// asked for it, and the news for everyone. `action` is the name of the
    /// action that was chosen, and `currency` the currency as it stands now.
    pub fn modified_response(
        data: &ApplicationCommandInteraction,
        action: &str,
        currency: &CurrencyData,
    ) -> (r: CommandResponseObject)
        ensures
            r@ == (ResponseView {
                interactive: true,
                interactive_data: Some(Seq::empty()),
                data: Some(
                    data.user.mention_spec() + " modified currency "@ + display_of(
                        action@,
                        *currency,
                    ) + ":\n> "@ + modification_of(action@, *currency),
                ),
                feedback: Some(
                    "Successfully modified currency **"@ + currency.currency_name@ + "** `"@
                        + currency.currency_code@ + "`"@,
                ),
                embed: None,
                ephemeral: false,
                modal: false,
            }),
    {
        let is_code = same_text(action, "code");
        let is_state = same_text(action, "state");
        let is_name = same_text(action, "name");
        let display = if is_code || is_state {
            String::from_str("**").concat(currency.currency_name.as_str()).concat("**")
        } else {
            String::from_str("`").concat(currency.currency_code.as_str()).concat("`")
        };
        let modification = if is_code {
            String::from_str("Currency Code -> `").concat(currency.currency_code.as_str()).concat(
                "`",
            )
        } else if is_state {
            String::from_str("Nation/State -> *").concat(currency.state.as_str()).concat("*")
        } else if is_name {
            String::from_str("Currency Name -> **").concat(
                currency.currency_name.as_str(),
            ).concat("**")
        } else {
            String::new()
        };
        let feedback = String::from_str("Successfully modified currency **").concat(
            currency.currency_name.as_str(),
        ).concat("** `").concat(currency.currency_code.as_str()).concat("`");
        let text = data.user.mention().concat(" modified currency ").concat(
            display.as_str(),
        ).concat(":\n> ").concat(modification.as_str());
        CommandResponseObject::interactive_with_feedback(
            CreateComponents::new(),
            feedback.as_str(),
            text.as_str(),
            false,
        )
    }
}

} // verus!
