//! `currency database`: recreating the ledger, behind a password.

use vstd::prelude::*;
use vstd::string::StringExecFns;

use crate::discord::builder::{
    option_trees, CommandOptionType, CreateApplicationCommandOption, CreateComponent,
    CreateComponents, CreateInputText, InputTextStyle, OptionTree,
};
use crate::discord::interaction::{
    ActionRowComponent, ApplicationCommandInteraction, ModalSubmitInteraction, User,
};
use crate::handlers::{quoted, quoted_text, Decision};
use crate::response::{CommandResponseObject, ResponseView};
use crate::utils::text::same_text;
use crate::utils::{get_options, options_of};

verus! {

/// The handler of `currency database`, which knows the password that
/// guards the ledger.
#[derive(Debug)]
pub struct DatabaseHandler {
    db_password: String,
}

/// The field of the modal that asks for the password.
pub open spec fn password_field() -> CreateInputText {
    CreateInputText {
        custom_id: "database-password-input",
        label: "Enter password to delete database",
        placeholder: "Enter password (this is not reversible!)",
        required: true,
        style: InputTextStyle::Short,
    }
}

/// The modal that asks for the password.
pub open spec fn password_modal() -> ResponseView {
    ResponseView {
        interactive: true,
        interactive_data: Some(seq![seq![CreateComponent::InputText(password_field())]]),
        data: Some("database-password-modal"@),
        feedback: None,
        embed: None,
        ephemeral: true,
        modal: true,
    }
}

/// What a command is answered with: for `recreate` the modal that asks for
/// the password, and an error for anything else.
pub open spec fn command_spec(data: ApplicationCommandInteraction) -> Result<
    ResponseView,
    Seq<char>,
> {
    match options_of(data) {
        Err(e) => Err("Error while getting options from command data: "@ + quoted(e)),
        Ok(options) => if options.len() == 0 {
            Err("Error while parsing options: Couldn't get subcommand data"@)
        } else if options[0].name@ == "recreate"@ {
            Ok(password_modal())
        } else {
            Err("Error: couldn't find the requested subcommand"@)
        },
    }
}

/// What a submitted modal asks for, given the password that guards the
/// ledger: to recreate it, to leave it, or the text of an error.
///
/// The password modal recreates the ledger where its first field is a line
/// of text that holds the password.
pub open spec fn modal_spec(data: ModalSubmitInteraction, password: Seq<char>) -> Result<
    Decision,
    Seq<char>,
> {
    if data.custom_id@ == "recreate-database-confirm"@ {
        Ok(Decision::Confirm)
    } else if data.custom_id@ == "recreate-database-cancel"@ {
        Ok(Decision::Cancel)
    } else if data.custom_id@ == "database-password-modal"@ {
        if data.components@.len() == 0 {
            Err("Error while building response: could not get input data"@)
        } else if data.components@[0].components@.len() == 0 {
            Err("Error while building response: could not get action row"@)
        } else {
            match data.components@[0].components@[0] {
                ActionRowComponent::InputText { custom_id, value } => if value@ == password {
                    Ok(Decision::Confirm)
                } else {
                    Err("Error: incorrect password for database"@)
                },
                ActionRowComponent::Other => Err(
                    "Error: couldn't find input text in components"@,
                ),
            }
        }
    } else {
        Err("Error: unknown custom id"@)
    }
}

/// The text that tells everyone that the ledger was recreated.
pub open spec fn recreated_text(user: User) -> Seq<char> {
    user.mention_spec()
        + " recreated the Economist Bot database. All stored data has been lost."@
}

/// The options that the handler describes to the chat service.
pub open spec fn registered() -> Seq<OptionTree> {
    seq![
        OptionTree::new(
            CommandOptionType::SubCommand,
            "recreate",
            "Recreate the entire currency database, starting from scratch. DANGER, THIS IS NOT REVERSIBLE!!!",
        ),
    ]
}

impl DatabaseHandler {
    /// The password that guards the ledger.
    pub closed spec fn password(self) -> Seq<char> {
        self.db_password@
    }

    /// A handler that guards the ledger with `db_password`.
    pub fn new(db_password: String) -> (h: Self)
        ensures
            h.password() == db_password@,
    {
        DatabaseHandler { db_password }
    }

    /// The name of the handler's subcommand.
    pub fn get_name(&self) -> (name: &'static str)
        ensures
            name == "database",
    {
        "database"
    }

    /// What the handler's subcommand is for, in a few words.
    pub fn get_description(&self) -> (description: &'static str)
        ensures
            description == "Manage and recreate the Economist Bot database",
    {
        "Manage and recreate the Economist Bot database"
    }

    /// Whether the subcommand stands alone or groups actions.
    pub fn get_option_kind(&self) -> (kind: CommandOptionType)
        ensures
            kind == CommandOptionType::SubCommandGroup,
    {
        CommandOptionType::SubCommandGroup
    }

    /// The subcommand `recreate`.
    pub fn register(&self) -> (options: Vec<CreateApplicationCommandOption>)
        ensures
            option_trees(options@) == registered(),
    {
        let recreate = CreateApplicationCommandOption::new(
            CommandOptionType::SubCommand,
            "recreate",
            "Recreate the entire currency database, starting from scratch. DANGER, THIS IS NOT REVERSIBLE!!!",
        );
        let ghost trees = seq![recreate@];
        let mut options: Vec<CreateApplicationCommandOption> = Vec::new();
        options.push(recreate);
        assert(option_trees(options@) =~= trees);
        options
    }

    /// The modals and buttons that the handler answers.
    pub fn get_pattern(&self) -> (pattern: Vec<&'static str>)
        ensures
            pattern@ == seq![
                "recreate-database-confirm",
                "recreate-database-cancel",
                "database-password-modal",
            ],
    {
        let mut pattern: Vec<&'static str> = Vec::new();
        pattern.push("recreate-database-confirm");
        pattern.push("recreate-database-cancel");
        pattern.push("database-password-modal");
        assert(pattern@ =~= seq![
            "recreate-database-confirm",
            "recreate-database-cancel",
            "database-password-modal",
        ]);
        pattern
    }

    /// Answers a command: `recreate` with the modal that asks for the
    /// password.
    pub fn handle_application_command(&mut self, data: &ApplicationCommandInteraction) -> (r:
        Result<CommandResponseObject, String>)
        ensures
            r is Ok <==> command_spec(*data) is Ok,
            r is Ok ==> r->Ok_0@ == command_spec(*data)->Ok_0,
            r is Err ==> r->Err_0@ == command_spec(*data)->Err_0,
            final(self).password() == old(self).password(),
    {
        let options = match get_options(data) {
            Ok(o) => o,
            Err(e) => {
                return Err(
                    String::from_str("Error while getting options from command data: ").concat(
                        quoted_text(e.as_str()).as_str(),
                    ),
                );
            },
        };
        if options.len() == 0 {
            return Err(
                String::from_str("Error while parsing options: Couldn't get subcommand data"),
            );
        }
        if options[0].is_named("recreate") {
            let components = CreateComponents::one_input(
                CreateInputText {
                    custom_id: "database-password-input",
                    label: "Enter password to delete database",
                    placeholder: "Enter password (this is not reversible!)",
                    required: true,
                    style: InputTextStyle::Short,
                },
            );
            Ok(CommandResponseObject::modal(components, String::from_str("database-password-modal")))
        } else {
            Err(String::from_str("Error: couldn't find the requested subcommand"))
        }
    }

    /// Decides what a submitted modal asks for. On `Confirm` the caller
    /// recreates the ledger and answers with `recreated_response`; on
    /// `Cancel` it answers with `cancelled_response`.
    pub fn handle_modal_submit(&self, data: &ModalSubmitInteraction) -> (r: Result<
        Decision,
        String,
    >)
        ensures
            r is Ok <==> modal_spec(*data, self.password()) is Ok,
            r is Ok ==> r->Ok_0 == modal_spec(*data, self.password())->Ok_0,
            r is Err ==> r->Err_0@ == modal_spec(*data, self.password())->Err_0,
    {
        let id = data.custom_id.as_str();
        if same_text(id, "recreate-database-confirm") {
            Ok(Decision::Confirm)
        } else if same_text(id, "recreate-database-cancel") {
            Ok(Decision::Cancel)
        } else if same_text(id, "database-password-modal") {
            if data.components.len() == 0 {
                return Err(
                    String::from_str("Error while building response: could not get input data"),
                );
            }
            let row = &data.components[0];
            if row.components.len() == 0 {
                return Err(
                    String::from_str("Error while building response: could not get action row"),
                );
            }
            match &row.components[0] {
                ActionRowComponent::InputText { custom_id, value } => {
                    if same_text(value.as_str(), self.db_password.as_str()) {
                        Ok(Decision::Confirm)
                    } else {
                        Err(String::from_str("Error: incorrect password for database"))
                    }
                },
                ActionRowComponent::Other => Err(
                    String::from_str("Error: couldn't find input text in components"),
                ),
            }
        } else {
            Err(String::from_str("Error: unknown custom id"))
        }
    }

    /// The answer once the ledger has been recreated.
    pub fn recreated_response(data: &ModalSubmitInteraction) -> (r: CommandResponseObject)
        ensures
            r@ == (ResponseView {
                interactive: true,
                interactive_data: Some(Seq::empty()),
                data: Some(recreated_text(data.user)),
                feedback: Some("Database successfully recreated"@),
                embed: None,
                ephemeral: true,
                modal: false,
            }),
    {
        let display = data.user.mention().concat(
            " recreated the Economist Bot database. All stored data has been lost.",
        );
        CommandResponseObject::interactive_with_feedback(
            CreateComponents::new(),
            "Database successfully recreated",
            display.as_str(),
            true,
        )
    }

    /// The answer where the ledger stays.
    pub fn cancelled_response() -> (r: CommandResponseObject)
        ensures
            r@ == (ResponseView {
                interactive: true,
                interactive_data: Some(Seq::empty()),
                data: Some(Seq::empty()),
                feedback: Some("Cancelled deleting database (this is probably a good thing)"@),
                embed: None,
                ephemeral: true,
                modal: false,
            }),
    {
        proof {
            reveal_strlit("");
        }
        let r = CommandResponseObject::interactive_with_feedback(
            CreateComponents::new(),
            "Cancelled deleting database (this is probably a good thing)",
            "",
            true,
        );
        assert(r@.data->0 =~= Seq::<char>::empty());
        r
    }
}

} // verus!
