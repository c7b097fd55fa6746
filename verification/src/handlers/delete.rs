//! `currency delete`: removing a currency, after a confirmation.

use vstd::prelude::*;
use vstd::string::StringExecFns;

use crate::discord::builder::{
    option_trees, ButtonStyle, CommandOptionType, CreateApplicationCommandOption,
    CreateComponents, OptionTree,
};
use crate::discord::interaction::{
    find_string, last_string, ApplicationCommandInteraction, CommandDataOption,
    MessageComponentInteraction,
};
use crate::handlers::{confirm_cancel, confirm_cancel_of, quoted, quoted_text, Decision};
use crate::response::{CommandResponseObject, ResponseView};
use crate::types::CurrencyData;
use crate::utils::text::same_text;
use crate::utils::{get_options, options_of};

verus! {

/// The handler of `currency delete`. Between the command and its
/// confirmation it remembers the currency that is to go.
#[derive(Debug)]
pub struct DeleteHandler {
    currency_code: String,
    currency_name: String,
}

/// The code of the currency that the options of `delete` name.
pub open spec fn parse_spec(options: Seq<CommandDataOption>) -> Result<Seq<char>, Seq<char>> {
    match last_string(options, "code"@) {
        Some(code) => Ok(code),
        None => Err("Error: no currency code specified"@),
    }
}

/// The code of the currency that a command names, or the text of the error.
pub open spec fn request_spec(data: ApplicationCommandInteraction) -> Result<Seq<char>, Seq<char>> {
    match options_of(data) {
        Err(e) => Err("Error while getting options from command data: "@ + quoted(e)),
        Ok(options) => match parse_spec(options) {
            Ok(code) => Ok(code),
            Err(e) => Err("Error while parsing options: "@ + quoted(e)),
        },
    }
}

/// The text that reports a currency code that the ledger does not hold.
pub open spec fn not_found_text(code: Seq<char>) -> Seq<char> {
    "Error: could not find the currency code `"@ + code + "`"@
}

/// The text that refuses a member who does not own the currency.
pub open spec fn not_owner_text() -> Seq<char> {
    "Error: you are not the owner of this currency, and therefore cannot modify it"@
}

/// The text that asks whether the currency is really to go.
pub open spec fn confirm_text(name: Seq<char>, code: Seq<char>) -> Seq<char> {
    "Confirm you really want to delete the currency **"@ + name + "** `"@ + code
        + "`?\n*This is not reversible*"@
}

/// A currency's name and code as they stand in the handler's messages.
pub open spec fn titled(name: Seq<char>, code: Seq<char>) -> Seq<char> {
    "**"@ + name + "** `"@ + code + "`"@
}

/// The options that the handler describes to the chat service.
pub open spec fn registered() -> Seq<OptionTree> {
    seq![
        OptionTree::new(
            CommandOptionType::String,
            "code",
            "The three-letter currency code to delete.",
        ).length(3, 3).required(),
    ]
}

impl DeleteHandler {
    /// The code of the currency that the handler remembers.
    pub closed spec fn code(self) -> Seq<char> {
        self.currency_code@
    }

    /// The name of the currency that the handler remembers.
    pub closed spec fn name(self) -> Seq<char> {
        self.currency_name@
    }

    /// A handler that remembers no currency.
    pub fn new() -> (h: Self)
        ensures
            h.code() == Seq::<char>::empty(),
            h.name() == Seq::<char>::empty(),
    {
        DeleteHandler { currency_code: String::new(), currency_name: String::new() }
    }

    /// The name of the handler's subcommand.
    pub fn get_name(&self) -> (name: &'static str)
        ensures
            name == "delete",
    {
        "delete"
    }

    /// What the handler's subcommand is for, in a few words.
    pub fn get_description(&self) -> (description: &'static str)
        ensures
            description == "Delete a currency from the database",
    {
        "Delete a currency from the database"
    }

    /// Whether the subcommand stands alone or groups actions.
    pub fn get_option_kind(&self) -> (kind: CommandOptionType)
        ensures
            kind == CommandOptionType::SubCommand,
    {
        CommandOptionType::SubCommand
    }

    /// A required code of three characters.
    pub fn register(&self) -> (options: Vec<CreateApplicationCommandOption>)
        ensures
            option_trees(options@) == registered(),
    {
        let code = CreateApplicationCommandOption::new(
            CommandOptionType::String,
            "code",
            "The three-letter currency code to delete.",
        ).length(3, 3).required();
        let ghost trees = seq![code@];
        let mut options: Vec<CreateApplicationCommandOption> = Vec::new();
        options.push(code);
        assert(option_trees(options@) =~= trees);
        options
    }

    /// The buttons that the handler answers.
    pub fn get_pattern(&self) -> (pattern: Vec<&'static str>)
        ensures
            pattern@ == seq!["delete-confirm", "delete-cancel"],
    {
        let mut pattern: Vec<&'static str> = Vec::new();
        pattern.push("delete-confirm");
        pattern.push("delete-cancel");
        assert(pattern@ =~= seq!["delete-confirm", "delete-cancel"]);
        pattern
    }

    /// Reads the currency's code from the options of `delete`.
    pub fn parse_options(&self, options: &Vec<CommandDataOption>) -> (r: Result<String, String>)
        ensures
            r is Ok <==> parse_spec(options@) is Ok,
            r is Ok ==> r->Ok_0@ == parse_spec(options@)->Ok_0,
            r is Err ==> r->Err_0@ == parse_spec(options@)->Err_0,
    {
        match find_string(options, "code") {
            Some(code) => Ok(code),
            None => Err(String::from_str("Error: no currency code specified")),
        }
    }

    /// Reads a command: the code of the currency to look up. The caller
    /// looks it up and hands what it found to `found_response`.
    pub fn handle_application_command(&mut self, data: &ApplicationCommandInteraction) -> (r:
        Result<String, String>)
        ensures
            r is Ok <==> request_spec(*data) is Ok,
            r is Ok ==> r->Ok_0@ == request_spec(*data)->Ok_0,
            r is Err ==> r->Err_0@ == request_spec(*data)->Err_0,
            final(self).code() == old(self).code(),
            final(self).name() == old(self).name(),
    {
        let options = match get_options(data) {
            Ok(o) => o,
            Err(e) => {
                return Err(
                    String::from_str("Error while getting options from command data: ").concat(
                        quoted_text(e.as_str()).as_str(),
                    ),
                );
            },
        };
        match self.parse_options(options) {
            Ok(code) => Ok(code),
            Err(e) => Err(
                String::from_str("Error while parsing options: ").concat(
                    quoted_text(e.as_str()).as_str(),
                ),
            ),
        }
    }

    /// The answer once the currency `currency_code` has been looked up:
    /// for its owner the question whether it is really to go, with the
    /// currency remembered; a refusal for anyone else; and a report where the
    /// ledger holds no such currency (`found` is `None`).
    pub fn found_response(
        &mut self,
        data: &ApplicationCommandInteraction,
        currency_code: &str,
        found: Option<&CurrencyData>,
    ) -> (r: Result<CommandResponseObject, String>)
        ensures
            r is Ok <==> found is Some && data.user.name@ == found->0.owner@,
            r is Ok ==> r->Ok_0@ == (ResponseView {
                interactive: true,
                interactive_data: Some(
                    confirm_cancel_of(
                        ButtonStyle::Danger,
                        "delete-confirm",
                        ButtonStyle::Primary,
                        "delete-cancel",
                    ),
                ),
                data: Some(confirm_text(found->0.currency_name@, found->0.currency_code@)),
                feedback: None,
                embed: None,
                ephemeral: true,
                modal: false,
            }) && final(self).code() == found->0.currency_code@ && final(self).name()
                == found->0.currency_name@,
            r is Err ==> final(self).code() == old(self).code() && final(self).name() == old(
                self,
            ).name(),
            r is Err ==> r->Err_0@ == if found is None {
                not_found_text(currency_code@)
            } else {
                not_owner_text()
            },
    {
        let currency = match found {
            Some(c) => c,
            None => {
                return Err(
                    String::from_str("Error: could not find the currency code `").concat(
                        currency_code,
                    ).concat("`"),
                );
            },
        };
        if !same_text(data.user.name.as_str(), currency.owner.as_str()) {
            return Err(
                String::from_str(
                    "Error: you are not the owner of this currency, and therefore cannot modify it",
                ),
            );
        }
        let components = confirm_cancel(
            ButtonStyle::Danger,
            "delete-confirm",
            ButtonStyle::Primary,
            "delete-cancel",
        );
        self.currency_code = currency.currency_code.clone();
        self.currency_name = currency.currency_name.clone();
        let text = String::from_str("Confirm you really want to delete the currency **").concat(
            currency.currency_name.as_str(),
        ).concat("** `").concat(currency.currency_code.as_str()).concat(
            "`?\n*This is not reversible*",
        );
        Ok(CommandResponseObject::interactive(components, text.as_str(), true))
    }

    /// What a press of the button `custom_id` asks for: only the button to
    /// confirm deletes, every other leaves the currency alone.
    pub fn decision(custom_id: &str) -> (d: Decision)
        ensures
            d == if custom_id@ == "delete-confirm"@ {
                Decision::Confirm
            } else {
                Decision::Cancel
            },
    {
        if same_text(custom_id, "delete-confirm") {
            Decision::Confirm
        } else {
            Decision::Cancel
        }
    }

    /// The code of the remembered currency.
    pub fn currency_code(&self) -> (code: &String)
        ensures
            code@ == self.code(),
    {
        &self.currency_code
    }

    /// The answer once the remembered currency has been removed.
    pub fn deleted_response(&self, data: &MessageComponentInteraction) -> (r:
        CommandResponseObject)
        ensures
            r@ == (ResponseView {
                interactive: true,
                interactive_data: Some(Seq::empty()),
                data: Some(
                    data.user.mention_spec() + " deleted currency "@ + titled(
                        self.name(),
                        self.code(),
                    ),
                ),
                feedback: Some("Successfully deleted currency "@ + titled(self.name(), self.code())),
                embed: None,
                ephemeral: true,
                modal: false,
            }),
    {
        let title = String::from_str("**").concat(self.currency_name.as_str()).concat(
            "** `",
        ).concat(self.currency_code.as_str()).concat("`");
        let feedback = String::from_str("Successfully deleted currency ").concat(title.as_str());
        let display = data.user.mention().concat(" deleted currency ").concat(title.as_str());
        CommandResponseObject::interactive_with_feedback(
            CreateComponents::new(),
            feedback.as_str(),
            display.as_str(),
            true,
        )
    }

    /// The answer where the currency stays.
    pub fn kept_response(&self) -> (r: CommandResponseObject)
        ensures
            r@ == (ResponseView {
                interactive: true,
                interactive_data: Some(Seq::empty()),
                data: Some(Seq::empty()),
                feedback: Some("Will not delete currency "@ + titled(self.name(), self.code())),
                embed: None,
                ephemeral: true,
                modal: false,
            }),
    {
        proof {
            reveal_strlit("");
        }
        let title = String::from_str("**").concat(self.currency_name.as_str()).concat(
            "** `",
        ).concat(self.currency_code.as_str()).concat("`");
        let feedback = String::from_str("Will not delete currency ").concat(title.as_str());
        let r = CommandResponseObject::interactive_with_feedback(
            CreateComponents::new(),
            feedback.as_str(),
            "",
            true,
        );
        assert(r@.data->0 =~= Seq::<char>::empty());
        r
    }
}

} // verus!
