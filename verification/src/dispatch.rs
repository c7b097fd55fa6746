//! Finding the handler for an interaction, wording what is said when there
//! is none or when it fails, and telling how an answer is delivered.

use vstd::prelude::*;
use vstd::string::StringExecFns;

use crate::discord::builder::{
    option_trees, CommandOptionType, CommandTree, CreateApplicationCommand,
    CreateApplicationCommandOption, OptionTree,
};
use crate::discord::interaction::ApplicationCommandInteraction;
use crate::handlers::circulation::CirculationHandler;
use crate::handlers::create::CreateHandler;
use crate::handlers::database::DatabaseHandler;
use crate::handlers::delete::DeleteHandler;
use crate::handlers::list::ListHandler;
use crate::handlers::modify::ModifyHandler;
use crate::handlers::records::RecordsHandler;
use crate::handlers::reserve::ReserveHandler;
use crate::handlers::view::ViewHandler;
use crate::response::{error_text, CommandResponseObject, ResponseView};
use crate::utils::text::{debug_text, debug_text_of, same_text};

verus! {

/// The handlers of the `currency` command.
#[derive(Debug, Clone, Copy, PartialEq, Eq, Structural)]
pub enum HandlerKind {
    Circulation,
    Reserve,
    Delete,
    Database,
    List,
    View,
    Create,
    Modify,
    Records,
}

impl HandlerKind {
    /// The name of the handler's subcommand.
    pub open spec fn name_spec(self) -> Seq<char> {
        match self {
            HandlerKind::Circulation => "circulation"@,
            HandlerKind::Reserve => "reserve"@,
            HandlerKind::Delete => "delete"@,
            HandlerKind::Database => "database"@,
            HandlerKind::List => "list"@,
            HandlerKind::View => "view"@,
            HandlerKind::Create => "create"@,
            HandlerKind::Modify => "modify"@,
            HandlerKind::Records => "records"@,
        }
    }

    /// The handler of the subcommand called `name`: the last of the
    /// handlers, in the order in which they are registered, that bears the
    /// name.
    pub open spec fn named(name: Seq<char>) -> Option<HandlerKind> {
        if name == "records"@ {
            Some(HandlerKind::Records)
        } else if name == "modify"@ {
            Some(HandlerKind::Modify)
        } else if name == "create"@ {
            Some(HandlerKind::Create)
        } else if name == "view"@ {
            Some(HandlerKind::View)
        } else if name == "list"@ {
            Some(HandlerKind::List)
        } else if name == "database"@ {
            Some(HandlerKind::Database)
        } else if name == "delete"@ {
            Some(HandlerKind::Delete)
        } else if name == "reserve"@ {
            Some(HandlerKind::Reserve)
        } else if name == "circulation"@ {
            Some(HandlerKind::Circulation)
        } else {
            None
        }
    }

    /// The handler that answers the button `custom_id`.
    pub open spec fn of_button(custom_id: Seq<char>) -> Option<HandlerKind> {
        if custom_id == "delete-confirm"@ || custom_id == "delete-cancel"@ {
            Some(HandlerKind::Delete)
        } else if custom_id == "reserve-transaction-confirm"@ || custom_id
            == "reserve-transaction-cancel"@ {
            Some(HandlerKind::Reserve)
        } else if custom_id == "circulation-transaction-confirm"@ || custom_id
            == "circulation-transaction-cancel"@ {
            Some(HandlerKind::Circulation)
        } else {
            None
        }
    }

    /// The handler that answers the modal `custom_id`.
    pub open spec fn of_modal(custom_id: Seq<char>) -> Option<HandlerKind> {
        if custom_id == "recreate-database-confirm"@ || custom_id == "recreate-database-cancel"@
            || custom_id == "database-password-modal"@ {
            Some(HandlerKind::Database)
        } else {
            None
        }
    }
}

/// Who answers a command.
#[derive(Debug, Clone, Copy, PartialEq, Eq, Structural)]
pub enum CommandRoute {
    /// The `economist` command itself.
    Meta,
    /// A handler of the `currency` command.
    Handler(HandlerKind),
    /// Nobody.
    Unhandled,
}

/// Who answers a command: the `economist` command answers for itself, and
/// any other command is answered by the handler that bears the name of its
/// first option.
pub open spec fn route_of(data: ApplicationCommandInteraction) -> CommandRoute {
    if data.name@ == "economist"@ {
        CommandRoute::Meta
    } else if data.options@.len() > 0 {
        match HandlerKind::named(data.options@[0].name@) {
            Some(kind) => CommandRoute::Handler(kind),
            None => CommandRoute::Unhandled,
        }
    } else {
        CommandRoute::Unhandled
    }
}

/// The handler of the subcommand called `name`.
pub fn handler_named(name: &str) -> (kind: Option<HandlerKind>)
    ensures
        kind == HandlerKind::named(name@),
{
    if same_text(name, "records") {
        Some(HandlerKind::Records)
    } else if same_text(name, "modify") {
        Some(HandlerKind::Modify)
    } else if same_text(name, "create") {
        Some(HandlerKind::Create)
    } else if same_text(name, "view") {
        Some(HandlerKind::View)
    } else if same_text(name, "list") {
        Some(HandlerKind::List)
    } else if same_text(name, "database") {
        Some(HandlerKind::Database)
    } else if same_text(name, "delete") {
        Some(HandlerKind::Delete)
    } else if same_text(name, "reserve") {
        Some(HandlerKind::Reserve)
    } else if same_text(name, "circulation") {
        Some(HandlerKind::Circulation)
    } else {
        None
    }
}

/// Who answers a command.
pub fn route_command(data: &ApplicationCommandInteraction) -> (route: CommandRoute)
    ensures
        route == route_of(*data),
{
    if same_text(data.name.as_str(), "economist") {
        CommandRoute::Meta
    } else if data.options.len() > 0 {
        match handler_named(data.options[0].name.as_str()) {
            Some(kind) => CommandRoute::Handler(kind),
            None => CommandRoute::Unhandled,
        }
    } else {
        CommandRoute::Unhandled
    }
}

/// The handler that answers the button `custom_id`.
pub fn route_component(custom_id: &str) -> (kind: Option<HandlerKind>)
    ensures
        kind == HandlerKind::of_button(custom_id@),
{
    if same_text(custom_id, "delete-confirm") || same_text(custom_id, "delete-cancel") {
        Some(HandlerKind::Delete)
    } else if same_text(custom_id, "reserve-transaction-confirm") || same_text(
        custom_id,
        "reserve-transaction-cancel",
    ) {
        Some(HandlerKind::Reserve)
    } else if same_text(custom_id, "circulation-transaction-confirm") || same_text(
        custom_id,
        "circulation-transaction-cancel",
    ) {
        Some(HandlerKind::Circulation)
    } else {
        None
    }
}

/// The handler that answers the modal `custom_id`.
pub fn route_modal(custom_id: &str) -> (kind: Option<HandlerKind>)
    ensures
        kind == HandlerKind::of_modal(custom_id@),
{
    if same_text(custom_id, "recreate-database-confirm") || same_text(
        custom_id,
        "recreate-database-cancel",
    ) || same_text(custom_id, "database-password-modal") {
        Some(HandlerKind::Database)
    } else {
        None
    }
}

/// A plain text for everyone.
pub open spec fn plain(text: Seq<char>) -> ResponseView {
    ResponseView {
        interactive: false,
        interactive_data: None,
        data: Some(text),
        feedback: None,
        embed: None,
        ephemeral: false,
        modal: false,
    }
}

/// The report of an error, for the member who caused it.
pub open spec fn report(text: Seq<char>) -> ResponseView {
    ResponseView {
        interactive: false,
        interactive_data: None,
        data: Some(error_text(text)),
        feedback: None,
        embed: None,
        ephemeral: true,
        modal: false,
    }
}

/// The answer to a command that nobody answers.
pub fn unhandled_command() -> (r: CommandResponseObject)
    ensures
        r@ == plain("Content unavailable: no response handler registered for command!"@),
{
    CommandResponseObject::text("Content unavailable: no response handler registered for command!")
}

/// The answer to a command whose handler failed with `error`.
pub fn failed_command(error: &str) -> (r: CommandResponseObject)
    ensures
        r@ == report("Error responding to application command: "@ + debug_text(error@)),
{
    let text = String::from_str("Error responding to application command: ").concat(
        debug_text_of(error).as_str(),
    );
    CommandResponseObject::error(text.as_str())
}

/// The answer to a button or modal that nobody answers.
pub fn unhandled_interaction() -> (r: CommandResponseObject)
    ensures
        r@ == report("Got no response from interaction response handler"@),
{
    CommandResponseObject::error("Got no response from interaction response handler")
}

/// The answer to a button or modal whose handler failed with `error`.
pub fn failed_interaction(error: &str) -> (r: CommandResponseObject)
    ensures
        r@ == report(debug_text(error@)),
{
    CommandResponseObject::error(debug_text_of(error).as_str())
}

/// How an answer is delivered.
#[derive(Debug, Clone, Copy, PartialEq, Eq, Structural)]
pub enum Delivery {
    /// As a modal.
    Modal,
    /// As a message with an embed.
    Embed,
    /// As a message with components.
    Interactive,
    /// As a message with text alone.
    Text,
}

/// How an answer is delivered: a modal as a modal; otherwise an answer with
/// an embed as an embed; otherwise one with components as a message with
/// components; and any other as text.
pub open spec fn delivery_of(response: ResponseView) -> Delivery {
    if response.modal {
        Delivery::Modal
    } else if response.embed is Some {
        Delivery::Embed
    } else if response.interactive {
        Delivery::Interactive
    } else {
        Delivery::Text
    }
}

/// How an answer is delivered.
pub fn delivery(response: &CommandResponseObject) -> (d: Delivery)
    ensures
        d == delivery_of(response@),
{
    if response.is_modal() {
        Delivery::Modal
    } else if response.get_embed().is_some() {
        Delivery::Embed
    } else if response.is_interactive() {
        Delivery::Interactive
    } else {
        Delivery::Text
    }
}

/// The option under which a handler stands in the `currency` command: its
/// kind, name and description, above the options that it describes.
pub open spec fn handler_tree(
    kind: CommandOptionType,
    name: &'static str,
    description: &'static str,
    registered: Seq<OptionTree>,
) -> OptionTree {
    OptionTree { options: registered, ..OptionTree::new(kind, name, description) }
}

/// The option under which a handler stands in the `currency` command.
pub fn handler_option(
    kind: CommandOptionType,
    name: &'static str,
    description: &'static str,
    registered: Vec<CreateApplicationCommandOption>,
) -> (o: CreateApplicationCommandOption)
    ensures
        o@ == handler_tree(kind, name, description, option_trees(registered@)),
{
    let o = CreateApplicationCommandOption {
        kind: Some(kind),
        name,
        description,
        required: false,
        min_length: None,
        max_length: None,
        choices: Vec::new(),
        options: registered,
    };
    assert(o@.options =~= option_trees(registered@));
    o
}

/// The `currency` command: one option for each handler, in the order in
/// which the handlers are registered.
pub open spec fn currency_tree() -> CommandTree {
    CommandTree {
        name: "currency",
        description: "Manage and view currencies and their circulation levels",
        options: seq![
            handler_tree(
                CommandOptionType::SubCommandGroup,
                "circulation",
                "Manage circulation amounts of a currency",
                crate::handlers::circulation::registered(),
            ),
            handler_tree(
                CommandOptionType::SubCommandGroup,
                "reserve",
                "Manage gold reserves of a currency",
                crate::handlers::reserve::registered(),
            ),
            handler_tree(
                CommandOptionType::SubCommand,
                "delete",
                "Delete a currency from the database",
                crate::handlers::delete::registered(),
            ),
            handler_tree(
                CommandOptionType::SubCommandGroup,
                "database",
                "Manage and recreate the Economist Bot database",
                crate::handlers::database::registered(),
            ),
            handler_tree(
                CommandOptionType::SubCommand,
                "list",
                "List currencies in circulation, optionally specifying a number and ordering",
                crate::handlers::list::registered(),
            ),
            handler_tree(
                CommandOptionType::SubCommand,
                "view",
                "View detailed information about a currency",
                crate::handlers::view::registered(),
            ),
            handler_tree(
                CommandOptionType::SubCommand,
                "create",
                "Create a new currency",
                crate::handlers::create::registered(),
            ),
            handler_tree(
                CommandOptionType::SubCommandGroup,
                "modify",
                "Modify currency name, state or currency code",
                crate::handlers::modify::registered(),
            ),
            handler_tree(
                CommandOptionType::SubCommand,
                "records",
                "View past currency end-of-day records",
                crate::handlers::records::registered(),
            ),
        ],
    }
}

/// Describes the `currency` command to the chat service.
pub fn currency_command() -> (c: CreateApplicationCommand)
    ensures
        c@ == currency_tree(),
{
    let circulation = CirculationHandler::new();
    let reserve = ReserveHandler::new();
    let delete = DeleteHandler::new();
    let database = DatabaseHandler::new(String::new());
    let list = ListHandler::new();
    let view = ViewHandler::new();
    let create = CreateHandler::new();
    let modify = ModifyHandler::new();
    let records = RecordsHandler::new();
    let c = CreateApplicationCommand::new(
        "currency",
        "Manage and view currencies and their circulation levels",
    ).option(
        handler_option(
            circulation.get_option_kind(),
            circulation.get_name(),
            circulation.get_description(),
            circulation.register(),
        ),
    ).option(
        handler_option(
            reserve.get_option_kind(),
            reserve.get_name(),
            reserve.get_description(),
            reserve.register(),
        ),
    ).option(
        handler_option(
            delete.get_option_kind(),
            delete.get_name(),
            delete.get_description(),
            delete.register(),
        ),
    ).option(
        handler_option(
            database.get_option_kind(),
            database.get_name(),
            database.get_description(),
            database.register(),
        ),
    ).option(
        handler_option(
            list.get_option_kind(),
            list.get_name(),
            list.get_description(),
            list.register(),
        ),
    ).option(
        handler_option(
            view.get_option_kind(),
            view.get_name(),
            view.get_description(),
            view.register(),
        ),
    ).option(
        handler_option(
            create.get_option_kind(),
            create.get_name(),
            create.get_description(),
            create.register(),
        ),
    ).option(
        handler_option(
            modify.get_option_kind(),
            modify.get_name(),
            modify.get_description(),
            modify.register(),
        ),
    ).option(
        handler_option(
            records.get_option_kind(),
            records.get_name(),
            records.get_description(),
            records.register(),
        ),
    );
    assert(c@.options =~= currency_tree().options);
    c
}

} // verus!
