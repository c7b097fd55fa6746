//! The `currency` command as one handler: every subcommand read, routed
//! and answered in one place, with what a later button needs kept in a small
//! memory.
//!
//! The handler does not touch the ledger. `run` and `handle_component` say
//! what is to be done there, and the answer is worded by the function that
//! belongs to what came back.

use vstd::prelude::*;
use vstd::string::StringExecFns;

use crate::commands::manage::ModifyMetaType;
use crate::commands::query::CurrencySort;
use crate::discord::builder::{
    text_of, ButtonStyle, CommandOptionType, CommandTree, CreateApplicationCommand,
    CreateApplicationCommandOption, CreateComponents, OptionTree,
};
use crate::discord::interaction::{
    any_integer_below, find_integer, find_string, has_integer_below, last_integer, last_string,
    ApplicationCommandInteraction, CommandDataOption, MessageComponentInteraction,
};
use crate::handlers::circulation;
use crate::handlers::create::created_text;
use crate::handlers::delete::{confirm_text, titled};
use crate::handlers::list::{sort_of_choice, ListHandler, DEFAULT_NUMBER};
use crate::handlers::modify::{change_spec, parse_spec as modify_options_of, MetaChange, ModifyHandler};
use crate::handlers::reserve;
use crate::handlers::{confirm_cancel, confirm_cancel_of};
use crate::response::{CommandResponseObject, ResponseView};
use crate::types::CurrencyData;
use crate::utils::text::{decimal, decimal_text, same_text, zero_filled};

verus! {

/// What the handler remembers between a command and the button that
/// confirms it.
#[derive(Debug)]
pub struct CustomData {
    /// The code of the currency that is to be deleted or was created.
    pub currency_code: Option<String>,
    /// The name of that currency.
    pub currency_name: Option<String>,
    /// The code of the currency of the transaction that awaits confirmation.
    pub transaction_code: Option<String>,
    /// The signed amount of that transaction.
    pub transaction_amount: Option<i64>,
    /// The mention of the member who asked for that transaction.
    pub transaction_initiator: Option<String>,
}

/// The handler's memory, with texts as sequences of characters.
pub struct CustomDataView {
    pub currency_code: Option<Seq<char>>,
    pub currency_name: Option<Seq<char>>,
    pub transaction_code: Option<Seq<char>>,
    pub transaction_amount: Option<i64>,
    pub transaction_initiator: Option<Seq<char>>,
}

impl CustomData {
    /// The memory, with texts as sequences of characters.
    pub open spec fn view(self) -> CustomDataView {
        CustomDataView {
            currency_code: text_of(self.currency_code),
            currency_name: text_of(self.currency_name),
            transaction_code: text_of(self.transaction_code),
            transaction_amount: self.transaction_amount,
            transaction_initiator: text_of(self.transaction_initiator),
        }
    }

    /// A memory that holds nothing.
    pub fn new() -> (m: CustomData)
        ensures
            m@ == (CustomDataView {
                currency_code: None,
                currency_name: None,
                transaction_code: None,
                transaction_amount: None,
                transaction_initiator: None,
            }),
    {
        CustomData {
            currency_code: None,
            currency_name: None,
            transaction_code: None,
            transaction_amount: None,
            transaction_initiator: None,
        }
    }
}

/// An option for a required amount.
pub open spec fn amount_tree(description: &'static str) -> OptionTree {
    OptionTree::new(CommandOptionType::Integer, "amount", description).required()
}

/// An option for a required code of three characters.
pub open spec fn code_tree(name: &'static str, description: &'static str) -> OptionTree {
    OptionTree::new(CommandOptionType::String, name, description).length(3, 3).required()
}

/// An action that takes an amount and a currency's code.
pub open spec fn transaction_tree(
    name: &'static str,
    description: &'static str,
    amount_description: &'static str,
) -> OptionTree {
    OptionTree::new(CommandOptionType::SubCommand, name, description).sub_option(
        amount_tree(amount_description),
    ).sub_option(code_tree("code", "The three-letter code of the target currency"))
}

/// The options of the `currency` command.
pub open spec fn registered() -> Seq<OptionTree> {
    seq![
        OptionTree::new(CommandOptionType::SubCommand, "create", "Create a new currency").sub_option(
            code_tree("code", "A three-letter currency code. This must be unique."),
        ).sub_option(
            OptionTree::new(
                CommandOptionType::String,
                "name",
                "The name of your new currency! This does *not* need to be unique.",
            ).required(),
        ).sub_option(
            OptionTree::new(
                CommandOptionType::String,
                "state",
                "The name of the nation or state in which this currency is based.",
            ).required(),
        ).sub_option(
            OptionTree::new(
                CommandOptionType::Integer,
                "initial_circulation",
                "The initial amount of your currency in circulation. Leave this blank if you're unsure.",
            ),
        ).sub_option(
            OptionTree::new(
                CommandOptionType::Integer,
                "initial_reserve",
                "The initial amount of gold in your federal reserve. Leave this blank if you're unsure.",
            ),
        ),
        OptionTree::new(
            CommandOptionType::SubCommand,
            "delete",
            "Delete a currency from the database",
        ).sub_option(code_tree("code", "The three-letter currency code to delete.")),
        OptionTree::new(
            CommandOptionType::SubCommandGroup,
            "reserve",
            "Manage gold reserves of a currency",
        ).sub_option(
            transaction_tree(
                "add",
                "Add gold to a currency's reserves",
                "The amount of gold to add to the reserves",
            ),
        ).sub_option(
            transaction_tree(
                "remove",
                "Remove gold from a currency's reserves",
                "The amount of gold to remove from the reserves",
            ),
        ),
        OptionTree::new(
            CommandOptionType::SubCommandGroup,
            "circulation",
            "Manage circulation amounts of a currency",
        ).sub_option(
            transaction_tree(
                "add",
                "Put money into circulation",
                "The amount of money to put into circulation",
            ),
        ).sub_option(
            transaction_tree(
                "remove",
                "Remove money from circulation",
                "The amount of money to remove from circulation",
            ),
        ),
        OptionTree::new(
            CommandOptionType::SubCommandGroup,
            "modify",
            "Modify currency name, state, or currency code.",
        ).sub_option(
            OptionTree::new(CommandOptionType::SubCommand, "name", "Modify currency name").sub_option(
                code_tree("code", "Three-letter currency code to modify"),
            ).sub_option(
                OptionTree::new(
                    CommandOptionType::String,
                    "name",
                    "New name of the currency",
                ).required(),
            ),
        ).sub_option(
            OptionTree::new(
                CommandOptionType::SubCommand,
                "state",
                "Modify nation/state of origin of a currency",
            ).sub_option(code_tree("code", "Three-letter currency code to modify")).sub_option(
                OptionTree::new(
                    CommandOptionType::String,
                    "state",
                    "New nation/state of the currency",
                ).required(),
            ),
        ).sub_option(
            OptionTree::new(
                CommandOptionType::SubCommand,
                "code",
                "Modify three-letter currency code",
            ).sub_option(code_tree("old_code", "Old three-letter currency code")).sub_option(
                code_tree("new_code", "New three-letter currency code"),
            ),
        ),
        OptionTree::new(
            CommandOptionType::SubCommand,
            "recreate-database",
            "Recreate the entire currency database, starting from scratch. DANGER, THIS IS NOT REVERSIBLE!!!",
        ),
        OptionTree::new(
            CommandOptionType::SubCommand,
            "list",
            "List currencies in circulation, optionally specifying a number",
        ).sub_option(
            OptionTree::new(CommandOptionType::Integer, "number", "Number of currencies to list"),
        ).sub_option(
            OptionTree::new(
                CommandOptionType::String,
                "sort",
                "Attribute to sort currency list by",
            ).choice("Name", "name").choice("Nation/State", "state").choice(
                "Currency Code",
                "code",
            ).choice("Gold Reserves", "reserves").choice("Circulation", "circulation").choice(
                "Value",
                "value",
            ),
        ),
        OptionTree::new(
            CommandOptionType::SubCommand,
            "view",
            "View detailed information about a currency",
        ).sub_option(code_tree("code", "Three-letter currency code to view")),
    ]
}

/// An option for a required amount.
fn amount_option(description: &'static str) -> (o: CreateApplicationCommandOption)
    ensures
        o@ == amount_tree(description),
{
    CreateApplicationCommandOption::new(CommandOptionType::Integer, "amount", description).required()
}

/// An option for a required code of three characters.
fn code_option(name: &'static str, description: &'static str) -> (o:
    CreateApplicationCommandOption)
    ensures
        o@ == code_tree(name, description),
{
    CreateApplicationCommandOption::new(CommandOptionType::String, name, description).length(
        3,
        3,
    ).required()
}

/// An action that takes an amount and a currency's code.
fn transaction_option(
    name: &'static str,
    description: &'static str,
    amount_description: &'static str,
) -> (o: CreateApplicationCommandOption)
    ensures
        o@ == transaction_tree(name, description, amount_description),
{
    CreateApplicationCommandOption::new(CommandOptionType::SubCommand, name, description).sub_option(
        amount_option(amount_description),
    ).sub_option(code_option("code", "The three-letter code of the target currency"))
}

/// Describes the `currency` command to the chat service: its name, its
/// description, and its options behind those that the command has already.
pub fn register(command: &mut CreateApplicationCommand)
    ensures
        final(command)@ == (CommandTree {
            name: "currency",
            description: "Manage currencies and their circulation/reserve levels",
            options: old(command)@.options + registered(),
        }),
{
    command.name = "currency";
    command.description = "Manage currencies and their circulation/reserve levels";
    let create = CreateApplicationCommandOption::new(
        CommandOptionType::SubCommand,
        "create",
        "Create a new currency",
    ).sub_option(
        code_option("code", "A three-letter currency code. This must be unique."),
    ).sub_option(
        CreateApplicationCommandOption::new(
            CommandOptionType::String,
            "name",
            "The name of your new currency! This does *not* need to be unique.",
        ).required(),
    ).sub_option(
        CreateApplicationCommandOption::new(
            CommandOptionType::String,
            "state",
            "The name of the nation or state in which this currency is based.",
        ).required(),
    ).sub_option(
        CreateApplicationCommandOption::new(
            CommandOptionType::Integer,
            "initial_circulation",
            "The initial amount of your currency in circulation. Leave this blank if you're unsure.",
        ),
    ).sub_option(
        CreateApplicationCommandOption::new(
            CommandOptionType::Integer,
            "initial_reserve",
            "The initial amount of gold in your federal reserve. Leave this blank if you're unsure.",
        ),
    );
    let delete = CreateApplicationCommandOption::new(
        CommandOptionType::SubCommand,
        "delete",
        "Delete a currency from the database",
    ).sub_option(code_option("code", "The three-letter currency code to delete."));
    let reserve = CreateApplicationCommandOption::new(
        CommandOptionType::SubCommandGroup,
        "reserve",
        "Manage gold reserves of a currency",
    ).sub_option(
        transaction_option(
            "add",
            "Add gold to a currency's reserves",
            "The amount of gold to add to the reserves",
        ),
    ).sub_option(
        transaction_option(
            "remove",
            "Remove gold from a currency's reserves",
            "The amount of gold to remove from the reserves",
        ),
    );
    let circulation = CreateApplicationCommandOption::new(
        CommandOptionType::SubCommandGroup,
        "circulation",
        "Manage circulation amounts of a currency",
    ).sub_option(
        transaction_option(
            "add",
            "Put money into circulation",
            "The amount of money to put into circulation",
        ),
    ).sub_option(
        transaction_option(
            "remove",
            "Remove money from circulation",
            "The amount of money to remove from circulation",
        ),
    );
    let modify = CreateApplicationCommandOption::new(
        CommandOptionType::SubCommandGroup,
        "modify",
        "Modify currency name, state, or currency code.",
    ).sub_option(
        CreateApplicationCommandOption::new(
            CommandOptionType::SubCommand,
            "name",
            "Modify currency name",
        ).sub_option(code_option("code", "Three-letter currency code to modify")).sub_option(
            CreateApplicationCommandOption::new(
                CommandOptionType::String,
                "name",
                "New name of the currency",
            ).required(),
        ),
    ).sub_option(
        CreateApplicationCommandOption::new(
            CommandOptionType::SubCommand,
            "state",
            "Modify nation/state of origin of a currency",
        ).sub_option(code_option("code", "Three-letter currency code to modify")).sub_option(
            CreateApplicationCommandOption::new(
                CommandOptionType::String,
                "state",
                "New nation/state of the currency",
            ).required(),
        ),
    ).sub_option(
        CreateApplicationCommandOption::new(
            CommandOptionType::SubCommand,
            "code",
            "Modify three-letter currency code",
        ).sub_option(code_option("old_code", "Old three-letter currency code")).sub_option(
            code_option("new_code", "New three-letter currency code"),
        ),
    );
    let recreate = CreateApplicationCommandOption::new(
        CommandOptionType::SubCommand,
        "recreate-database",
        "Recreate the entire currency database, starting from scratch. DANGER, THIS IS NOT REVERSIBLE!!!",
    );
    let list = CreateApplicationCommandOption::new(
        CommandOptionType::SubCommand,
        "list",
        "List currencies in circulation, optionally specifying a number",
    ).sub_option(
        CreateApplicationCommandOption::new(
            CommandOptionType::Integer,
            "number",
            "Number of currencies to list",
        ),
    ).sub_option(
        CreateApplicationCommandOption::new(
            CommandOptionType::String,
            "sort",
            "Attribute to sort currency list by",
        ).choice("Name", "name").choice("Nation/State", "state").choice(
            "Currency Code",
            "code",
        ).choice("Gold Reserves", "reserves").choice("Circulation", "circulation").choice(
            "Value",
            "value",
        ),
    );
    let view = CreateApplicationCommandOption::new(
        CommandOptionType::SubCommand,
        "view",
        "View detailed information about a currency",
    ).sub_option(code_option("code", "Three-letter currency code to view"));
    let ghost trees = seq![
        create@,
        delete@,
        reserve@,
        circulation@,
        modify@,
        recreate@,
        list@,
        view@,
    ];
    assert(trees =~= registered());
    command.options.push(create);
    command.options.push(delete);
    command.options.push(reserve);
    command.options.push(circulation);
    command.options.push(modify);
    command.options.push(recreate);
    command.options.push(list);
    command.options.push(view);
    assert(command@.options =~= old(command)@.options + trees);
}

/// A message with a text and no components, for the member who caused it.
pub open spec fn private_note(text: Seq<char>) -> ResponseView {
    ResponseView {
        interactive: true,
        interactive_data: Some(Seq::empty()),
        data: Some(text),
        feedback: None,
        embed: None,
        ephemeral: true,
        modal: false,
    }
}

/// A message with a text and no components, for everyone.
pub open spec fn public_note(text: Seq<char>) -> ResponseView {
    ResponseView { ephemeral: false, ..private_note(text) }
}

/// A plain text for everyone.
pub open spec fn plain(text: Seq<char>) -> ResponseView {
    ResponseView {
        interactive: false,
        interactive_data: None,
        data: Some(text),
        feedback: None,
        embed: None,
        ephemeral: false,
        modal: false,
    }
}

/// A message without components, with a text for the member who caused it
/// and a text for everyone.
pub open spec fn news(feedback: Seq<char>, display: Seq<char>) -> ResponseView {
    ResponseView {
        interactive: true,
        interactive_data: Some(Seq::empty()),
        data: Some(display),
        feedback: Some(feedback),
        embed: None,
        ephemeral: true,
        modal: false,
    }
}

/// A message with a text and no components, for the member who caused it.
fn private_note_response(text: &str) -> (r: CommandResponseObject)
    ensures
        r@ == private_note(text@),
{
    CommandResponseObject::interactive(CreateComponents::new(), text, true)
}

/// A message without components, with a text for the member who caused it
/// and nothing for everyone.
fn feedback_response(feedback: &str) -> (r: CommandResponseObject)
    ensures
        r@ == news(feedback@, Seq::empty()),
{
    proof {
        reveal_strlit("");
    }
    let r = CommandResponseObject::interactive_with_feedback(
        CreateComponents::new(),
        feedback,
        "",
        true,
    );
    assert(r@.data->0 =~= Seq::<char>::empty());
    r
}

/// The text that reports a command that cannot be read, with a dump of it.
pub open spec fn unreadable_text(dump: Seq<char>, fenced: bool) -> Seq<char> {
    "Error: Economist Bot encountered an error processing a command. A debug dump of the command interaction is below:\n"@
        + (if fenced {
        "```"@ + dump + "```"@
    } else {
        dump
    })
}

/// The text that reports a command that cannot be read, with a dump of it.
fn unreadable(dump: &str, fenced: bool) -> (s: String)
    ensures
        s@ == unreadable_text(dump@, fenced),
{
    let head = String::from_str(
        "Error: Economist Bot encountered an error processing a command. A debug dump of the command interaction is below:\n",
    );
    if fenced {
        let tail = String::from_str("```").concat(dump).concat("```");
        head.concat(tail.as_str())
    } else {
        head.concat(dump)
    }
}

/// What the options of an action of `reserve` or `circulation` ask for,
/// read one after the other: the signed amount and the currency's code.
///
/// An amount is taken as it stands, or with its sign turned where `negate`
/// holds; the least number there is keeps its sign. An amount that follows a
/// negative reading is refused.
pub open spec fn scan_spec(options: Seq<CommandDataOption>, negate: bool) -> Option<
    (i64, Seq<char>),
>
    decreases options.len(),
{
    if options.len() == 0 {
        Some((0i64, Seq::empty()))
    } else {
        match scan_spec(options.drop_last(), negate) {
            None => None,
            Some((amount, code)) => {
                let option = options.last();
                if option.name@ == "code"@ && option.string_value() is Some {
                    Some((amount, option.string_value()->0))
                } else if option.name@ == "amount"@ && option.integer_value() is Some {
                    if amount < 0 {
                        None
                    } else {
                        Some((signed(option.integer_value()->0, negate), code))
                    }
                } else {
                    Some((amount, code))
                }
            },
        }
    }
}

/// An amount as it stands, or with its sign turned.
pub open spec fn signed(amount: i64, negate: bool) -> i64 {
    if negate && amount != i64::MIN {
        (-amount) as i64
    } else {
        amount
    }
}

/// Reads the signed amount and the currency's code from the options of an
/// action of `reserve` or `circulation`.
pub fn scan_transaction(options: &Vec<CommandDataOption>, negate: bool) -> (r: Option<
    (i64, String),
>)
    ensures
        r is Some <==> scan_spec(options@, negate) is Some,
        r is Some ==> r->Some_0.0 == scan_spec(options@, negate)->Some_0.0 && r->Some_0.1@ == scan_spec(
            options@,
            negate,
        )->Some_0.1,
{
    let mut amount: i64 = 0;
    let mut code = String::new();
    let mut i: usize = 0;
    assert(options@.take(0) =~= Seq::<CommandDataOption>::empty());
    while i < options.len()
        invariant
            i <= options.len(),
            scan_spec(options@.take(i as int), negate) == Some((amount, code@)),
        decreases options.len() - i,
    {
        proof {
            let next = options@.take(i + 1);
            assert(next.drop_last() =~= options@.take(i as int));
            assert(next.last() == options@[i as int]);
        }
        let option = &options[i];
        let mut handled = false;
        if option.is_named("code") {
            match option.as_string() {
                Some(text) => {
                    code = text;
                    handled = true;
                },
                None => {},
            }
        }
        if !handled && option.is_named("amount") {
            match option.as_integer() {
                Some(given) => {
                    if amount < 0 {
                        proof {
                            lemma_scan_refused(options@, negate, i as int + 1);
                        }
                        return None;
                    }
                    amount = if negate && given != i64::MIN {
                        -given
                    } else {
                        given
                    };
                },
                None => {},
            }
        }
        i = i + 1;
    }
    assert(options@.take(options.len() as int) =~= options@);
    Some((amount, code))
}

/// Once an amount has been refused, the rest of the options cannot mend it.
proof fn lemma_scan_refused(options: Seq<CommandDataOption>, negate: bool, n: int)
    requires
        0 <= n <= options.len(),
        scan_spec(options.take(n), negate) is None,
    ensures
        scan_spec(options, negate) is None,
    decreases options.len() - n,
{
    if n < options.len() {
        let next = options.take(n + 1);
        assert(next.drop_last() =~= options.take(n));
        lemma_scan_refused(options, negate, n + 1);
    } else {
        assert(options.take(n) =~= options);
    }
}

/// The text of the last option called `name`, where that option was given
/// a text.
pub open spec fn last_named_string(options: Seq<CommandDataOption>, name: Seq<char>) -> Option<
    Seq<char>,
>
    decreases options.len(),
{
    if options.len() == 0 {
        None
    } else if options.last().name@ == name {
        options.last().string_value()
    } else {
        last_named_string(options.drop_last(), name)
    }
}

/// The text of the last option called `name`, where that option was given
/// a text.
pub fn find_named_string(options: &Vec<CommandDataOption>, name: &str) -> (r: Option<String>)
    ensures
        r is Some <==> last_named_string(options@, name@) is Some,
        r is Some ==> r->0@ == last_named_string(options@, name@)->0,
{
    let mut found: Option<String> = None;
    let mut i: usize = 0;
    assert(options@.take(0) =~= Seq::<CommandDataOption>::empty());
    while i < options.len()
        invariant
            i <= options.len(),
            found is Some <==> last_named_string(options@.take(i as int), name@) is Some,
            found is Some ==> found->0@ == last_named_string(options@.take(i as int), name@)->0,
        decreases options.len() - i,
    {
        proof {
            let next = options@.take(i + 1);
            assert(next.drop_last() =~= options@.take(i as int));
            assert(next.last() == options@[i as int]);
        }
        if options[i].is_named(name) {
            found = options[i].as_string();
        }
        i = i + 1;
    }
    assert(options@.take(options.len() as int) =~= options@);
    found
}

/// What is to be done for a command.
#[derive(Debug)]
pub enum CurrencyStep {
    /// Answer at once.
    Respond(CommandResponseObject),
    /// Look the currency up; answer with `delete_prompt` where it is found
    /// and with `delete_missing` where it is not.
    Delete { currency_code: String },
    /// Store the currency; answer with `created`, `create_duplicate` or
    /// `create_failed`.
    Create {
        currency_code: String,
        currency_name: String,
        circulation: i64,
        gold_reserve: i64,
        state: String,
    },
    /// Look the currency up; answer with `reserve_review`, `lookup_missing`
    /// or `lookup_failed`.
    Reserve { currency_code: String, amount: i64 },
    /// Look the currency up; answer with `circulation_review`,
    /// `lookup_missing` or `lookup_failed`.
    Circulation { currency_code: String, amount: i64, remove: bool },
    /// Make the change; answer with `modified` or `modify_failed`.
    Modify { action: String, change: MetaChange },
    /// Read the currencies; answer with `listed` or `list_failed`.
    List { sort: CurrencySort, number: i64 },
    /// Look the currency up; answer with `viewed` or `view_failed`.
    View { currency_code: String },
}

/// A step, with texts as sequences of characters.
pub enum StepView {
    Respond(ResponseView),
    Delete { currency_code: Seq<char> },
    Create {
        currency_code: Seq<char>,
        currency_name: Seq<char>,
        circulation: i64,
        gold_reserve: i64,
        state: Seq<char>,
    },
    Reserve { currency_code: Seq<char>, amount: i64 },
    Circulation { currency_code: Seq<char>, amount: i64, remove: bool },
    Modify { action: Seq<char>, change: (Seq<char>, ModifyMetaType, Seq<char>) },
    List { sort: CurrencySort, number: i64 },
    View { currency_code: Seq<char> },
}

impl CurrencyStep {
    /// The step, with texts as sequences of characters.
    pub open spec fn view(self) -> StepView {
        match self {
            CurrencyStep::Respond(response) => StepView::Respond(response@),
            CurrencyStep::Delete { currency_code } => StepView::Delete {
                currency_code: currency_code@,
            },
            CurrencyStep::Create {
                currency_code,
                currency_name,
                circulation,
                gold_reserve,
                state,
            } => StepView::Create {
                currency_code: currency_code@,
                currency_name: currency_name@,
                circulation,
                gold_reserve,
                state: state@,
            },
            CurrencyStep::Reserve { currency_code, amount } => StepView::Reserve {
                currency_code: currency_code@,
                amount,
            },
            CurrencyStep::Circulation { currency_code, amount, remove } => StepView::Circulation {
                currency_code: currency_code@,
                amount,
                remove,
            },
            CurrencyStep::Modify { action, change } => StepView::Modify {
                action: action@,
                change: (change.currency_code@, change.kind, change.data@),
            },
            CurrencyStep::List { sort, number } => StepView::List { sort, number },
            CurrencyStep::View { currency_code } => StepView::View {
                currency_code: currency_code@,
            },
        }
    }
}

/// A text that was given, or the empty text.
pub open spec fn or_empty(text: Option<Seq<char>>) -> Seq<char> {
    match text {
        Some(text) => text,
        None => Seq::empty(),
    }
}

/// A number that was given, or zero.
pub open spec fn or_zero(n: Option<i64>) -> i64 {
    match n {
        Some(n) => n,
        None => 0,
    }
}

/// The text that refuses a negative amount.
pub open spec fn negative_text(subcommand: Seq<char>, remove: bool) -> Seq<char> {
    if remove {
        "Error: you can't use negative values with `/currency "@ + subcommand
            + " remove` to add more money. That's silly. Please use `/currency "@ + subcommand
            + " add` instead."@
    } else {
        "Error: you can't use negative values with `/currency "@ + subcommand
            + " add`. Please use `/currency "@ + subcommand + " remove` instead."@
    }
}

/// The question whether the ledger is really to be recreated.
pub const RECREATE_WARNING: &'static str = "***DANGER***\nThis command ***CANNOT BE REVERSED***\nIf you click confirm, you will lose access to:\n- **All currencies, their metadata, circulation amount and reserves**\n- **All transaction history, for all currencies, forever**\n- **All current and past currency values, against the Gold Standard and each other**\nOnly use this command if you have been told to by the creator, `@Starkiller645`\nAre you _100% sure_ you want to continue?";

/// What `reserve` (where `circulation` does not hold) or `circulation` asks
/// for.
pub open spec fn transaction_step(
    subcommand: CommandDataOption,
    circulation: bool,
    dump: Seq<char>,
) -> StepView {
    if subcommand.options@.len() == 0 {
        StepView::Respond(private_note(unreadable_text(dump, circulation)))
    } else {
        let action = subcommand.options@[0];
        let remove = action.name@ == "remove"@;
        if action.name@ != "add"@ && !remove {
            StepView::Respond(plain(Seq::empty()))
        } else {
            match scan_spec(action.options@, remove) {
                None => StepView::Respond(
                    private_note(
                        negative_text(
                            if circulation {
                                "circulation"@
                            } else {
                                "reserve"@
                            },
                            remove,
                        ),
                    ),
                ),
                Some((amount, code)) => if circulation {
                    StepView::Circulation { currency_code: code, amount, remove }
                } else {
                    StepView::Reserve { currency_code: code, amount }
                },
            }
        }
    }
}

/// What `modify` asks for.
pub open spec fn modify_step(subcommand: CommandDataOption, dump: Seq<char>) -> StepView {
    if subcommand.options@.len() == 0 {
        StepView::Respond(private_note(unreadable_text(dump, true)))
    } else {
        let action = subcommand.options@[0];
        match change_spec(action.name@, modify_options_of(action.options@)) {
            Some(change) => StepView::Modify { action: action.name@, change },
            None => StepView::Respond(
                plain("Couldn't respond to subcommand `modify`: Invalid data"@),
            ),
        }
    }
}

/// What `list` asks for.
pub open spec fn list_step(options: Seq<CommandDataOption>) -> StepView {
    if has_integer_below(options, "number"@, 1) {
        StepView::Respond(
            private_note("Error: can't have a negative number of currencies to return."@),
        )
    } else {
        StepView::List {
            sort: match last_string(options, "sort"@) {
                Some(choice) => sort_of_choice(choice),
                None => CurrencySort::Name,
            },
            number: match last_integer(options, "number"@) {
                Some(n) => n,
                None => DEFAULT_NUMBER,
            },
        }
    }
}

/// What `view` asks for.
pub open spec fn view_step(options: Seq<CommandDataOption>) -> StepView {
    match last_named_string(options, "code"@) {
        Some(code) => StepView::View { currency_code: code },
        None => StepView::Respond(
            private_note("Couldn't respond to subcommand `view`: No currency code specified!"@),
        ),
    }
}

/// What is to be done for a command. `dump` is the text that shows the
/// whole command, for the report of a command that cannot be read.
pub open spec fn run_spec(data: ApplicationCommandInteraction, dump: Seq<char>) -> StepView {
    if data.options@.len() == 0 {
        StepView::Respond(public_note(unreadable_text(dump, false)))
    } else {
        let subcommand = data.options@[0];
        let options = subcommand.options@;
        let name = subcommand.name@;
        if name == "delete"@ {
            StepView::Delete { currency_code: or_empty(last_string(options, "code"@)) }
        } else if name == "create"@ {
            StepView::Create {
                currency_code: or_empty(last_string(options, "code"@)),
                currency_name: or_empty(last_string(options, "name"@)),
                circulation: or_zero(last_integer(options, "initial_circulation"@)),
                gold_reserve: or_zero(last_integer(options, "initial_reserve"@)),
                state: or_empty(last_string(options, "state"@)),
            }
        } else if name == "reserve"@ {
            transaction_step(subcommand, false, dump)
        } else if name == "circulation"@ {
            transaction_step(subcommand, true, dump)
        } else if name == "modify"@ {
            modify_step(subcommand, dump)
        } else if name == "recreate-database"@ {
            StepView::Respond(
                ResponseView {
                    interactive_data: Some(
                        confirm_cancel_of(
                            ButtonStyle::Danger,
                            "recreate-database-confirm",
                            ButtonStyle::Primary,
                            "recreate-database-cancel",
                        ),
                    ),
                    ..private_note(RECREATE_WARNING@)
                },
            )
        } else if name == "list"@ {
            list_step(options)
        } else if name == "view"@ {
            view_step(options)
        } else {
            StepView::Respond(plain("Couldn't respond to subcommand `"@ + name + "`"@))
        }
    }
}

/// What the handler remembers after a command: for `delete` the code of
/// the currency, and for a transaction that was read its code, its amount
/// and the mention of the member who asked for it.
pub open spec fn remembered(
    before: CustomDataView,
    data: ApplicationCommandInteraction,
    dump: Seq<char>,
) -> CustomDataView {
    match run_spec(data, dump) {
        StepView::Delete { currency_code } => CustomDataView {
            currency_code: Some(currency_code),
            ..before
        },
        StepView::Reserve { currency_code, amount } => CustomDataView {
            transaction_code: Some(currency_code),
            transaction_amount: Some(amount),
            transaction_initiator: Some(data.user.mention_spec()),
            ..before
        },
        StepView::Circulation { currency_code, amount, remove } => CustomDataView {
            transaction_code: Some(currency_code),
            transaction_amount: Some(amount),
            transaction_initiator: Some(data.user.mention_spec()),
            ..before
        },
        _ => before,
    }
}

/// A text that was found, or the empty text.
fn found_or_empty(found: Option<String>) -> (s: String)
    ensures
        s@ == or_empty(text_of(found)),
{
    match found {
        Some(s) => s,
        None => String::new(),
    }
}

/// What `reserve` or `circulation` asks for.
fn run_transaction(
    data: &ApplicationCommandInteraction,
    custom_data: &mut CustomData,
    circulation: bool,
    dump: &str,
) -> (r: CurrencyStep)
    requires
        data.options@.len() > 0,
    ensures
        r@ == transaction_step(data.options@[0], circulation, dump@),
        final(custom_data)@ == match r@ {
            StepView::Respond(_) => old(custom_data)@,
            _ => CustomDataView {
                transaction_code: Some(
                    scan_spec(
                        data.options@[0].options@[0].options@,
                        data.options@[0].options@[0].name@ == "remove"@,
                    )->Some_0.1,
                ),
                transaction_amount: Some(
                    scan_spec(
                        data.options@[0].options@[0].options@,
                        data.options@[0].options@[0].name@ == "remove"@,
                    )->Some_0.0,
                ),
                transaction_initiator: Some(data.user.mention_spec()),
                ..old(custom_data)@
            },
        },
{
    let subcommand = &data.options[0];
    if subcommand.options.len() == 0 {
        return CurrencyStep::Respond(private_note_response(unreadable(dump, circulation).as_str()));
    }
    let action = &subcommand.options[0];
    let remove = action.is_named("remove");
    if !action.is_named("add") && !remove {
        proof {
            reveal_strlit("");
        }
        let r = CommandResponseObject::text("");
        assert(r@.data->0 =~= Seq::<char>::empty());
        return CurrencyStep::Respond(r);
    }
    match scan_transaction(&action.options, remove) {
        None => {
            let subcommand_name = if circulation {
                "circulation"
            } else {
                "reserve"
            };
            let head = String::from_str(
                "Error: you can't use negative values with `/currency ",
            ).concat(subcommand_name);
            let text = if remove {
                head.concat(
                    " remove` to add more money. That's silly. Please use `/currency ",
                ).concat(subcommand_name).concat(" add` instead.")
            } else {
                head.concat(" add`. Please use `/currency ").concat(subcommand_name).concat(
                    " remove` instead.",
                )
            };
            CurrencyStep::Respond(private_note_response(text.as_str()))
        },
        Some((amount, code)) => {
            custom_data.transaction_code = Some(code.clone());
            custom_data.transaction_amount = Some(amount);
            custom_data.transaction_initiator = Some(data.user.mention());
            if circulation {
                CurrencyStep::Circulation { currency_code: code, amount, remove }
            } else {
                CurrencyStep::Reserve { currency_code: code, amount }
            }
        },
    }
}

/// What `modify` asks for.
fn run_modify(data: &ApplicationCommandInteraction, dump: &str) -> (r: CurrencyStep)
    requires
        data.options@.len() > 0,
    ensures
        r@ == modify_step(data.options@[0], dump@),
{
    let subcommand = &data.options[0];
    if subcommand.options.len() == 0 {
        return CurrencyStep::Respond(private_note_response(unreadable(dump, true).as_str()));
    }
    let action = &subcommand.options[0];
    let old_code = find_string(&action.options, "old_code");
    let new_code = find_string(&action.options, "new_code");
    let code = find_string(&action.options, "code");
    let state = find_string(&action.options, "state");
    let name = find_string(&action.options, "name");
    let change = if action.is_named("code") {
        match (old_code, new_code) {
            (Some(old_code), Some(new_code)) => Some(
                MetaChange { currency_code: old_code, kind: ModifyMetaType::Code, data: new_code },
            ),
            _ => None,
        }
    } else if action.is_named("state") {
        match (code, state) {
            (Some(code), Some(state)) => Some(
                MetaChange { currency_code: code, kind: ModifyMetaType::State, data: state },
            ),
            _ => None,
        }
    } else if action.is_named("name") {
        match (code, name) {
            (Some(code), Some(name)) => Some(
                MetaChange { currency_code: code, kind: ModifyMetaType::Name, data: name },
            ),
            _ => None,
        }
    } else {
        None
    };
    match change {
        Some(change) => CurrencyStep::Modify { action: action.name.clone(), change },
        None => CurrencyStep::Respond(
            CommandResponseObject::text("Couldn't respond to subcommand `modify`: Invalid data"),
        ),
    }
}

/// Reads a command and says what is to be done for it, remembering what a
/// later button needs. `dump` is the text that shows the whole command.
pub fn run(data: &ApplicationCommandInteraction, custom_data: &mut CustomData, dump: &str) -> (r:
    CurrencyStep)
    ensures
        r@ == run_spec(*data, dump@),
        final(custom_data)@ == remembered(old(custom_data)@, *data, dump@),
{
    if data.options.len() == 0 {
        return CurrencyStep::Respond(
            CommandResponseObject::interactive(
                CreateComponents::new(),
                unreadable(dump, false).as_str(),
                false,
            ),
        );
    }
    let subcommand = &data.options[0];
    let options = &subcommand.options;
    if subcommand.is_named("delete") {
        let currency_code = found_or_empty(find_string(options, "code"));
        custom_data.currency_code = Some(currency_code.clone());
        CurrencyStep::Delete { currency_code }
    } else if subcommand.is_named("create") {
        let circulation = match find_integer(options, "initial_circulation") {
            Some(n) => n,
            None => 0,
        };
        let gold_reserve = match find_integer(options, "initial_reserve") {
            Some(n) => n,
            None => 0,
        };
        CurrencyStep::Create {
            currency_code: found_or_empty(find_string(options, "code")),
            currency_name: found_or_empty(find_string(options, "name")),
            circulation,
            gold_reserve,
            state: found_or_empty(find_string(options, "state")),
        }
    } else if subcommand.is_named("reserve") {
        run_transaction(data, custom_data, false, dump)
    } else if subcommand.is_named("circulation") {
        run_transaction(data, custom_data, true, dump)
    } else if subcommand.is_named("modify") {
        run_modify(data, dump)
    } else if subcommand.is_named("recreate-database") {
        CurrencyStep::Respond(
            CommandResponseObject::interactive(
                confirm_cancel(
                    ButtonStyle::Danger,
                    "recreate-database-confirm",
                    ButtonStyle::Primary,
                    "recreate-database-cancel",
                ),
                RECREATE_WARNING,
                true,
            ),
        )
    } else if subcommand.is_named("list") {
        if any_integer_below(options, "number", 1) {
            return CurrencyStep::Respond(
                private_note_response(
                    "Error: can't have a negative number of currencies to return.",
                ),
            );
        }
        let sort = match find_string(options, "sort") {
            Some(choice) => ListHandler::sort_for(choice.as_str()),
            None => CurrencySort::Name,
        };
        let number = match find_integer(options, "number") {
            Some(n) => n,
            None => DEFAULT_NUMBER,
        };
        CurrencyStep::List { sort, number }
    } else if subcommand.is_named("view") {
        match find_named_string(options, "code") {
            Some(currency_code) => CurrencyStep::View { currency_code },
            None => CurrencyStep::Respond(
                private_note_response(
                    "Couldn't respond to subcommand `view`: No currency code specified!",
                ),
            ),
        }
    } else {
        let text = String::from_str("Couldn't respond to subcommand `").concat(
            subcommand.name.as_str(),
        ).concat("`");
        CurrencyStep::Respond(CommandResponseObject::text(text.as_str()))
    }
}

/// The answer to `delete` once the currency has been found: the question
/// whether it is really to go. The currency's name is remembered.
pub fn delete_prompt(custom_data: &mut CustomData, currency: &CurrencyData, currency_code: &str)
    -> (r: CommandResponseObject)
    ensures
        r@ == (ResponseView {
            interactive_data: Some(
                confirm_cancel_of(
                    ButtonStyle::Danger,
                    "button-delete-confirm",
                    ButtonStyle::Primary,
                    "button-delete-cancel",
                ),
            ),
            ..private_note(confirm_text(currency.currency_name@, currency_code@))
        }),
        final(custom_data)@ == (CustomDataView {
            currency_name: Some(currency.currency_name@),
            ..old(custom_data)@
        }),
{
    custom_data.currency_name = Some(currency.currency_name.clone());
    let text = String::from_str("Confirm you really want to delete the currency **").concat(
        currency.currency_name.as_str(),
    ).concat("** `").concat(currency_code).concat("`?\n*This is not reversible*");
    CommandResponseObject::interactive(
        confirm_cancel(
            ButtonStyle::Danger,
            "button-delete-confirm",
            ButtonStyle::Primary,
            "button-delete-cancel",
        ),
        text.as_str(),
        true,
    )
}

/// The answer to `delete` where the ledger does not hold the currency.
pub fn delete_missing(currency_code: &str) -> (r: CommandResponseObject)
    ensures
        r@ == plain(
            "Error deleting currency: could not find the currency code `"@ + currency_code@
                + "`"@,
        ),
{
    let text = String::from_str(
        "Error deleting currency: could not find the currency code `",
    ).concat(currency_code).concat("`");
    CommandResponseObject::text(text.as_str())
}

/// The answer to `create` once the currency has been stored: the news for
/// everyone. The code and the name that were asked for are remembered.
pub fn created(
    custom_data: &mut CustomData,
    data: &ApplicationCommandInteraction,
    currency: &CurrencyData,
    currency_code: &str,
    currency_name: &str,
) -> (r: CommandResponseObject)
    ensures
        r@ == plain(created_text(data.user.mention_spec(), *currency)),
        final(custom_data)@ == (CustomDataView {
            currency_code: Some(currency_code@),
            currency_name: Some(currency_name@),
            ..old(custom_data)@
        }),
{
    custom_data.currency_code = Some(String::from_str(currency_code));
    custom_data.currency_name = Some(String::from_str(currency_name));
    let text = data.user.mention().concat(" created new currency:\n> **").concat(
        currency.currency_name.as_str(),
    ).concat("** (*").concat(currency.state.as_str()).concat("*)\n> Currency Code: `").concat(
        currency.currency_code.as_str(),
    ).concat("`\n> Initial circulation: `").concat(
        decimal_text(currency.circulation as i128).as_str(),
    ).concat(currency.currency_code.as_str()).concat("`\n> Initial gold reserve: `").concat(
        decimal_text(currency.reserves as i128).as_str(),
    ).concat(" ingots`");
    CommandResponseObject::text(text.as_str())
}

/// The answer to `create` where the code is taken.
pub fn create_duplicate(currency_name: &str, currency_code: &str) -> (r: CommandResponseObject)
    ensures
        r@ == private_note(
            "Error creating currency **"@ + currency_name@ + "**:\nThe currency code `"@
                + currency_code@ + "` is already in use, please choose another one!"@,
        ),
{
    let text = String::from_str("Error creating currency **").concat(currency_name).concat(
        "**:\nThe currency code `",
    ).concat(currency_code).concat("` is already in use, please choose another one!");
    private_note_response(text.as_str())
}

/// The answer to `create` where storing failed for another reason, which
/// `shown` tells.
pub fn create_failed(currency_name: &str, shown: &str) -> (r: CommandResponseObject)
    ensures
        r@ == plain(
            "Error creating currency **"@ + currency_name@ + "**:\n```"@ + shown@ + "```"@,
        ),
{
    let text = String::from_str("Error creating currency **").concat(currency_name).concat(
        "**:\n```",
    ).concat(shown).concat("```");
    CommandResponseObject::text(text.as_str())
}

/// The answer to a transaction for a currency that the ledger does not
/// hold.
pub fn lookup_missing(currency_code: &str) -> (r: CommandResponseObject)
    ensures
        r@ == private_note(
            "Error: the currency code `"@ + currency_code@
                + "` was not found. Check your spelling and try again."@,
        ),
{
    let text = String::from_str("Error: the currency code `").concat(currency_code).concat(
        "` was not found. Check your spelling and try again.",
    );
    private_note_response(text.as_str())
}

/// The answer to a transaction where looking the currency up failed, as
/// `shown` tells.
pub fn lookup_failed(shown: &str) -> (r: CommandResponseObject)
    ensures
        r@ == private_note("Error: SQLx Error\n`"@ + shown@ + "`"@),
{
    let text = String::from_str("Error: SQLx Error\n`").concat(shown).concat("`");
    private_note_response(text.as_str())
}

/// The answer to `reserve` once the currency has been found: the review of
/// the transaction.
pub fn reserve_review(currency: &CurrencyData, amount: i64) -> (r: CommandResponseObject)
    ensures
        r@ == (ResponseView {
            interactive_data: Some(
                confirm_cancel_of(
                    ButtonStyle::Primary,
                    "gold-transaction-confirm",
                    ButtonStyle::Secondary,
                    "gold-transaction-cancel",
                ),
            ),
            ..private_note(reserve::review_text(*currency, amount))
        }),
{
    let new_reserves: i128 = currency.reserves as i128 + amount as i128;
    let text = String::from_str("**Review gold reserve transaction**\n> Currency: **").concat(
        currency.currency_name.as_str(),
    ).concat("** `").concat(currency.currency_code.as_str()).concat(
        "`\n> Nation/State: *",
    ).concat(currency.state.as_str()).concat("*\n> Amount: `").concat(
        decimal_text(amount as i128).as_str(),
    ).concat(" ingots`\n> New balance: `").concat(decimal_text(new_reserves).as_str()).concat(
        " ingots`",
    );
    CommandResponseObject::interactive(
        confirm_cancel(
            ButtonStyle::Primary,
            "gold-transaction-confirm",
            ButtonStyle::Secondary,
            "gold-transaction-cancel",
        ),
        text.as_str(),
        true,
    )
}

/// The answer to `circulation` once the currency has been found: the
/// review of the transaction, with a warning where money is taken out.
pub fn circulation_review(currency: &CurrencyData, amount: i64, remove: bool) -> (r:
    CommandResponseObject)
    ensures
        r@ == (ResponseView {
            interactive_data: Some(
                if remove {
                    confirm_cancel_of(
                        ButtonStyle::Danger,
                        "currency-transaction-confirm",
                        ButtonStyle::Primary,
                        "currency-transaction-cancel",
                    )
                } else {
                    confirm_cancel_of(
                        ButtonStyle::Primary,
                        "currency-transaction-confirm",
                        ButtonStyle::Secondary,
                        "currency-transaction-cancel",
                    )
                },
            ),
            ..private_note(circulation::review_text(*currency, amount, !remove))
        }),
{
    let new_circulation: i128 = currency.circulation as i128 + amount as i128;
    let components = if remove {
        confirm_cancel(
            ButtonStyle::Danger,
            "currency-transaction-confirm",
            ButtonStyle::Primary,
            "currency-transaction-cancel",
        )
    } else {
        confirm_cancel(
            ButtonStyle::Primary,
            "currency-transaction-confirm",
            ButtonStyle::Secondary,
            "currency-transaction-cancel",
        )
    };
    let mut text = String::from_str(
        "**Review currency circulation transaction**\n> Currency: **",
    ).concat(currency.currency_name.as_str()).concat("** `").concat(
        currency.currency_code.as_str(),
    ).concat("`\n> Nation/State: *").concat(currency.state.as_str()).concat(
        "*\n> Amount: `",
    ).concat(decimal_text(amount as i128).as_str()).concat(
        currency.currency_code.as_str(),
    ).concat("`\n> New balance: `").concat(decimal_text(new_circulation).as_str()).concat(
        currency.currency_code.as_str(),
    ).concat("`");
    if remove {
        text.append(
            "\n**Warning**: You must only use this command if you are *certain* that you have removed the correct amount from circulation by repossessing and destroying it.\nUsing this command without doing so could result in prosecution by the Gold Standard organisation, as it will increase your currency's value illegally!",
        );
    }
    assert(text@ =~= circulation::review_text(*currency, amount, !remove));
    CommandResponseObject::interactive(components, text.as_str(), true)
}

/// The answer to `modify` once the change has been made.
pub fn modified(data: &ApplicationCommandInteraction, action: &str, currency: &CurrencyData) -> (r:
    CommandResponseObject)
    ensures
        r@ == (ResponseView {
            ephemeral: false,
            ..news(
                "Successfully modified currency **"@ + currency.currency_name@ + "** `"@
                    + currency.currency_code@ + "`"@,
                data.user.mention_spec() + " modified currency "@
                    + crate::handlers::modify::display_of(action@, *currency) + ":\n> "@
                    + crate::handlers::modify::modification_of(action@, *currency),
            )
        }),
{
    ModifyHandler::modified_response(data, action, currency)
}

/// The answer to `modify` where the change could not be made.
pub fn modify_failed() -> (r: CommandResponseObject)
    ensures
        r@ == plain("Couldn't respond to subcommand `modify`: Invalid data"@),
{
    CommandResponseObject::text("Couldn't respond to subcommand `modify`: Invalid data")
}

/// The answer to `list` where reading the currencies failed, as `shown`
/// tells.
pub fn list_failed(shown: &str) -> (r: CommandResponseObject)
    ensures
        r@ == private_note(shown@),
{
    private_note_response(shown)
}

/// The text that shows a currency, with its value as the text `value_text`.
pub open spec fn view_text(currency: CurrencyData, value_text: Seq<char>) -> Seq<char> {
    "`"@ + currency.currency_code@ + "` **"@ + currency.currency_name@ + "**\n> Nation/State: _"@
        + currency.state@ + "_\n> Reserves: `"@ + decimal(currency.reserves as int)
        + " ingots`\n> Circulation: `"@ + decimal(currency.circulation as int) + " "@
        + currency.currency_code@ + "`\n> Value: `"@ + value_text + " "@ + currency.currency_code@
        + " / ingot`"@
}

/// The answer to `view` once the currency has been found.
pub fn viewed(currency: &CurrencyData, value_text: &str) -> (r: CommandResponseObject)
    ensures
        r@ == private_note(view_text(*currency, value_text@)),
{
    let code = currency.currency_code.as_str();
    let text = String::from_str("`").concat(code).concat("` **").concat(
        currency.currency_name.as_str(),
    ).concat("**\n> Nation/State: _").concat(currency.state.as_str()).concat(
        "_\n> Reserves: `",
    ).concat(decimal_text(currency.reserves as i128).as_str()).concat(
        " ingots`\n> Circulation: `",
    ).concat(decimal_text(currency.circulation as i128).as_str()).concat(" ").concat(code).concat(
        "`\n> Value: `",
    ).concat(value_text).concat(" ").concat(code).concat(" / ingot`");
    private_note_response(text.as_str())
}

/// The answer to `view` where looking the currency up failed, as `shown`
/// tells.
pub fn view_failed(shown: &str) -> (r: CommandResponseObject)
    ensures
        r@ == public_note("Error looking up currency: "@ + shown@),
{
    let text = String::from_str("Error looking up currency: ").concat(shown);
    CommandResponseObject::interactive(CreateComponents::new(), text.as_str(), false)
}

/// What is to be done for a button.
#[derive(Debug)]
pub enum ComponentStep {
    /// Answer at once.
    Respond(CommandResponseObject),
    /// Remove the currency; answer with `removed` or `remove_failed`.
    RemoveCurrency { currency_code: String, currency_name: String },
    /// Change the reserves, then look the currency up; answer with
    /// `reserve_done`, `transaction_failed` or `balance_check_failed`.
    ReserveModify { currency_code: String, amount: i64, initiator: String },
    /// Change the circulation, then look the currency up; answer with
    /// `circulation_done`, `transaction_failed` or `balance_check_failed`.
    CirculationModify { currency_code: String, amount: i64, initiator: String },
    /// Recreate the ledger; answer with `recreated` or `recreate_failed`.
    RecreateDatabase,
}

/// A step for a button, with texts as sequences of characters.
pub enum ComponentStepView {
    Respond(ResponseView),
    RemoveCurrency { currency_code: Seq<char>, currency_name: Seq<char> },
    ReserveModify { currency_code: Seq<char>, amount: i64, initiator: Seq<char> },
    CirculationModify { currency_code: Seq<char>, amount: i64, initiator: Seq<char> },
    RecreateDatabase,
}

impl ComponentStep {
    /// The step, with texts as sequences of characters.
    pub open spec fn view(self) -> ComponentStepView {
        match self {
            ComponentStep::Respond(response) => ComponentStepView::Respond(response@),
            ComponentStep::RemoveCurrency {
                currency_code,
                currency_name,
            } => ComponentStepView::RemoveCurrency {
                currency_code: currency_code@,
                currency_name: currency_name@,
            },
            ComponentStep::ReserveModify {
                currency_code,
                amount,
                initiator,
            } => ComponentStepView::ReserveModify {
                currency_code: currency_code@,
                amount,
                initiator: initiator@,
            },
            ComponentStep::CirculationModify {
                currency_code,
                amount,
                initiator,
            } => ComponentStepView::CirculationModify {
                currency_code: currency_code@,
                amount,
                initiator: initiator@,
            },
            ComponentStep::RecreateDatabase => ComponentStepView::RecreateDatabase,
        }
    }
}

/// The answer to a button whose command the handler does not remember.
pub open spec fn invalid_interaction() -> ResponseView {
    private_note("Error: this component interaction is invalid!"@)
}

/// Whether the handler remembers a whole transaction.
pub open spec fn holds_transaction(memory: CustomDataView) -> bool {
    memory.transaction_initiator is Some && memory.transaction_amount is Some
        && memory.transaction_code is Some
}

/// What is to be done for the button `custom_id`, given what the handler
/// remembers.
pub open spec fn component_spec(custom_id: Seq<char>, memory: CustomDataView)
    -> ComponentStepView {
    if custom_id == "button-delete-confirm"@ {
        if memory.currency_code is Some && memory.currency_name is Some {
            ComponentStepView::RemoveCurrency {
                currency_code: memory.currency_code->0,
                currency_name: memory.currency_name->0,
            }
        } else {
            ComponentStepView::Respond(invalid_interaction())
        }
    } else if custom_id == "button-delete-cancel"@ {
        ComponentStepView::Respond(news("Will not delete currency."@, Seq::empty()))
    } else if custom_id == "gold-transaction-confirm"@ {
        if holds_transaction(memory) {
            ComponentStepView::ReserveModify {
                currency_code: memory.transaction_code->0,
                amount: memory.transaction_amount->0,
                initiator: memory.transaction_initiator->0,
            }
        } else {
            ComponentStepView::Respond(invalid_interaction())
        }
    } else if custom_id == "currency-transaction-confirm"@ {
        if holds_transaction(memory) {
            ComponentStepView::CirculationModify {
                currency_code: memory.transaction_code->0,
                amount: memory.transaction_amount->0,
                initiator: memory.transaction_initiator->0,
            }
        } else {
            ComponentStepView::Respond(invalid_interaction())
        }
    } else if custom_id == "recreate-database-confirm"@ {
        ComponentStepView::RecreateDatabase
    } else if custom_id == "recreate-database-cancel"@ {
        ComponentStepView::Respond(
            news("Cancelled deleting database. This is probably a good thing."@, Seq::empty()),
        )
    } else {
        ComponentStepView::Respond(plain("Unknown component, uh oh!"@))
    }
}

/// The transaction that the handler remembers, where it remembers a whole
/// one.
fn remembered_transaction(custom_data: &CustomData) -> (r: Option<(String, i64, String)>)
    ensures
        r is Some <==> holds_transaction(custom_data@),
        r is Some ==> r->Some_0.0@ == custom_data@.transaction_code->0 && r->Some_0.1
            == custom_data@.transaction_amount->0 && r->Some_0.2@
            == custom_data@.transaction_initiator->0,
{
    match (
        &custom_data.transaction_code,
        &custom_data.transaction_amount,
        &custom_data.transaction_initiator,
    ) {
        (Some(code), Some(amount), Some(initiator)) => Some(
            (code.clone(), *amount, initiator.clone()),
        ),
        _ => None,
    }
}

/// The answer to a button whose command the handler does not remember.
fn invalid_response() -> (r: CommandResponseObject)
    ensures
        r@ == invalid_interaction(),
{
    private_note_response("Error: this component interaction is invalid!")
}

/// Says what is to be done for a button, given what the handler remembers.
pub fn handle_component(data: &MessageComponentInteraction, custom_data: &CustomData) -> (r:
    ComponentStep)
    ensures
        r@ == component_spec(data.custom_id@, custom_data@),
{
    let id = data.custom_id.as_str();
    if same_text(id, "button-delete-confirm") {
        match (&custom_data.currency_code, &custom_data.currency_name) {
            (Some(code), Some(name)) => ComponentStep::RemoveCurrency {
                currency_code: code.clone(),
                currency_name: name.clone(),
            },
            _ => ComponentStep::Respond(invalid_response()),
        }
    } else if same_text(id, "button-delete-cancel") {
        ComponentStep::Respond(feedback_response("Will not delete currency."))
    } else if same_text(id, "gold-transaction-confirm") {
        match remembered_transaction(custom_data) {
            Some((currency_code, amount, initiator)) => ComponentStep::ReserveModify {
                currency_code,
                amount,
                initiator,
            },
            None => ComponentStep::Respond(invalid_response()),
        }
    } else if same_text(id, "currency-transaction-confirm") {
        match remembered_transaction(custom_data) {
            Some((currency_code, amount, initiator)) => ComponentStep::CirculationModify {
                currency_code,
                amount,
                initiator,
            },
            None => ComponentStep::Respond(invalid_response()),
        }
    } else if same_text(id, "recreate-database-confirm") {
        ComponentStep::RecreateDatabase
    } else if same_text(id, "recreate-database-cancel") {
        ComponentStep::Respond(
            feedback_response("Cancelled deleting database. This is probably a good thing."),
        )
    } else {
        ComponentStep::Respond(CommandResponseObject::text("Unknown component, uh oh!"))
    }
}

/// The answer once the currency has been removed.
pub fn removed(data: &MessageComponentInteraction, currency_name: &str, currency_code: &str) -> (r:
    CommandResponseObject)
    ensures
        r@ == news(
            "Successfully deleted currency "@ + titled(currency_name@, currency_code@),
            data.user.mention_spec() + " deleted currency "@ + titled(
                currency_name@,
                currency_code@,
            ),
        ),
{
    let title = String::from_str("**").concat(currency_name).concat("** `").concat(
        currency_code,
    ).concat("`");
    let feedback = String::from_str("Successfully deleted currency ").concat(title.as_str());
    let display = data.user.mention().concat(" deleted currency ").concat(title.as_str());
    CommandResponseObject::interactive_with_feedback(
        CreateComponents::new(),
        feedback.as_str(),
        display.as_str(),
        true,
    )
}

/// The answer where removing the currency failed, as `shown` tells.
pub fn remove_failed(shown: &str) -> (r: CommandResponseObject)
    ensures
        r@ == private_note("Error: SQLx error: \n"@ + shown@),
{
    let text = String::from_str("Error: SQLx error: \n").concat(shown);
    private_note_response(text.as_str())
}

/// The answer where a confirmed transaction failed, as `shown` tells.
pub fn transaction_failed(shown: &str) -> (r: CommandResponseObject)
    ensures
        r@ == news("Error while completing transaction: `"@ + shown@ + "`"@, Seq::empty()),
{
    let text = String::from_str("Error while completing transaction: `").concat(shown).concat(
        "`",
    );
    feedback_response(text.as_str())
}

/// The answer where a transaction was made and looking up the new balance
/// failed, as `shown` tells.
pub fn balance_check_failed(shown: &str) -> (r: CommandResponseObject)
    ensures
        r@ == news(
            "Error while completing currency balance check: `"@ + shown@ + "`"@,
            Seq::empty(),
        ),
{
    let text = String::from_str("Error while completing currency balance check: `").concat(
        shown,
    ).concat("`");
    feedback_response(text.as_str())
}

/// The answer once a confirmed reserve transaction has been made.
/// `currency` is the currency as it stands after the transaction.
pub fn reserve_done(
    data: &MessageComponentInteraction,
    currency: &CurrencyData,
    currency_code: &str,
    amount: i64,
    transaction_id: i64,
) -> (r: CommandResponseObject)
    ensures
        r@ == news(
            "Successfully completed gold reserve transaction!"@,
            reserve::broadcast_text(data.user, *currency, currency_code@, amount, transaction_id),
        ),
{
    let broadcast = data.user.mention().concat(
        " made a gold reserve transaction:\n> Currency: **",
    ).concat(currency.currency_name.as_str()).concat("** `").concat(currency_code).concat(
        "`\n> Nation/State: *",
    ).concat(currency.state.as_str()).concat("*\n> Amount: `").concat(
        decimal_text(amount as i128).as_str(),
    ).concat(" ingots`\n> New balance: `").concat(
        decimal_text(currency.reserves as i128).as_str(),
    ).concat(" ingots`\n> Transaction ID: `#").concat(
        zero_filled(decimal_text(transaction_id as i128), 5).as_str(),
    ).concat("`");
    CommandResponseObject::interactive_with_feedback(
        CreateComponents::new(),
        "Successfully completed gold reserve transaction!",
        broadcast.as_str(),
        true,
    )
}

/// The answer once a confirmed circulation transaction has been made.
/// `currency` is the currency as it stands after the transaction.
pub fn circulation_done(
    data: &MessageComponentInteraction,
    currency: &CurrencyData,
    currency_code: &str,
    amount: i64,
    transaction_id: i64,
) -> (r: CommandResponseObject)
    ensures
        r@ == news(
            "Successfully completed currency circulation transaction!"@,
            circulation::broadcast_text(
                data.user,
                *currency,
                currency_code@,
                amount,
                transaction_id,
            ),
        ),
{
    let broadcast = data.user.mention().concat(
        " made a currency circulation transaction:\n> Currency: **",
    ).concat(currency.currency_name.as_str()).concat("** `").concat(currency_code).concat(
        "`\n> Nation/State: *",
    ).concat(currency.state.as_str()).concat("*\n> Amount: `").concat(
        decimal_text(amount as i128).as_str(),
    ).concat(currency_code).concat("`\n> New balance: `").concat(
        decimal_text(currency.circulation as i128).as_str(),
    ).concat(currency_code).concat("`\n> Transaction ID: `#").concat(
        zero_filled(decimal_text(transaction_id as i128), 5).as_str(),
    ).concat("`");
    CommandResponseObject::interactive_with_feedback(
        CreateComponents::new(),
        "Successfully completed currency circulation transaction!",
        broadcast.as_str(),
        true,
    )
}

/// The answer once the ledger has been recreated.
pub fn recreated(data: &MessageComponentInteraction) -> (r: CommandResponseObject)
    ensures
        r@ == news(
            "Well, it's done. Hopefully you meant to do that, otherwise you're going to be in *big* trouble"@,
            data.user.mention_spec()
                + " recreated the entire database. *Any and all* stored data has been lost."@,
        ),
{
    let display = data.user.mention().concat(
        " recreated the entire database. *Any and all* stored data has been lost.",
    );
    CommandResponseObject::interactive_with_feedback(
        CreateComponents::new(),
        "Well, it's done. Hopefully you meant to do that, otherwise you're going to be in *big* trouble",
        display.as_str(),
        true,
    )
}

/// The answer where recreating the ledger failed, as `shown` tells.
pub fn recreate_failed(shown: &str) -> (r: CommandResponseObject)
    ensures
        r@ == news(
            "We encountered an error recreating the database: "@ + shown@
                + ".\n*This is probably a good thing...*"@,
            Seq::empty(),
        ),
{
    let text = String::from_str("We encountered an error recreating the database: ").concat(
        shown,
    ).concat(".\n*This is probably a good thing...*");
    feedback_response(text.as_str())
}

} // verus!
