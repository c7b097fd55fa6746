use economist_bot::commands::manage::ModifyMetaType;
use economist_bot::commands::query::CurrencySort;
use economist_bot::discord::builder::{
    ButtonStyle, CommandOptionType, CreateApplicationCommandOption, CreateComponent,
    InputTextStyle,
};
use economist_bot::discord::interaction::{
    any_integer_below, find_integer, find_integer_from, find_string, ActionRow,
    ActionRowComponent, ApplicationCommandInteraction, CommandDataOption,
    CommandDataOptionValue, MessageComponentInteraction, ModalSubmitInteraction, User,
};
use economist_bot::handlers::boilerplate::BoilerplateHandler;
use economist_bot::handlers::circulation::CirculationHandler;
use economist_bot::handlers::create::CreateHandler;
use economist_bot::handlers::database::DatabaseHandler;
use economist_bot::handlers::delete::DeleteHandler;
use economist_bot::handlers::list::{ListHandler, ListedCurrency};
use economist_bot::handlers::modify::ModifyHandler;
use economist_bot::handlers::records::{ListedRecord, RecordsHandler};
use economist_bot::handlers::reserve::ReserveHandler;
use economist_bot::handlers::view::ViewHandler;
use economist_bot::handlers::{quoted_text, Decision};
use economist_bot::types::value::Value;
use economist_bot::types::{CurrencyData, RecordData, RecordDate};
use economist_bot::utils::get_options;
use economist_bot::CommandResponseObject;

fn text_option(name: &str, value: &str) -> CommandDataOption {
    CommandDataOption {
        name: String::from(name),
        resolved: Some(CommandDataOptionValue::String(String::from(value))),
        options: Vec::new(),
    }
}

fn number_option(name: &str, value: i64) -> CommandDataOption {
    CommandDataOption {
        name: String::from(name),
        resolved: Some(CommandDataOptionValue::Integer(value)),
        options: Vec::new(),
    }
}

fn flag_option(name: &str, value: bool) -> CommandDataOption {
    CommandDataOption {
        name: String::from(name),
        resolved: Some(CommandDataOptionValue::Boolean(value)),
        options: Vec::new(),
    }
}

fn group(name: &str, options: Vec<CommandDataOption>) -> CommandDataOption {
    CommandDataOption { name: String::from(name), resolved: None, options }
}

fn alice() -> User {
    User { id: 42, name: String::from("alice") }
}

fn command(options: Vec<CommandDataOption>) -> ApplicationCommandInteraction {
    ApplicationCommandInteraction { name: String::from("currency"), options, user: alice() }
}

fn press(custom_id: &str) -> MessageComponentInteraction {
    MessageComponentInteraction { custom_id: String::from(custom_id), user: alice() }
}

fn gold() -> CurrencyData {
    CurrencyData {
        currency_id: 3,
        currency_name: String::from("Gold Mark"),
        currency_code: String::from("GMK"),
        circulation: 1000,
        reserves: 250,
        owner: String::from("alice"),
        state: String::from("Goldland"),
    }
}

fn names(options: &Vec<CommandDataOption>) -> Vec<String> {
    options.iter().map(|o| o.name.clone()).collect()
}

fn option_names(options: &Vec<CreateApplicationCommandOption>) -> Vec<&'static str> {
    options.iter().map(|o| o.name).collect()
}

fn buttons_of(mut response: CommandResponseObject) -> Vec<(&'static str, ButtonStyle, &'static str)> {
    let components = response.get_interactive_data();
    assert_eq!(components.rows.len(), 1);
    let mut out = Vec::new();
    for component in &components.rows[0].components {
        match component {
            CreateComponent::Button(button) => out.push((button.label, button.style, button.custom_id)),
            other => panic!("expected a button, got {:?}", other),
        }
    }
    out
}

#[test]
fn options_are_found_last_one_first() {
    let options = vec![
        text_option("code", "AAA"),
        number_option("amount", 5),
        text_option("code", "BBB"),
        number_option("code", 9),
        number_option("amount", -7),
        flag_option("amount", true),
    ];
    assert_eq!(find_string(&options, "code"), Some(String::from("BBB")));
    assert_eq!(find_string(&options, "amount"), None);
    assert_eq!(find_string(&options, "missing"), None);
    assert_eq!(find_integer(&options, "amount"), Some(-7));
    assert_eq!(find_integer(&options, "code"), Some(9));
    assert_eq!(find_integer(&options, "missing"), None);
    assert_eq!(find_integer_from(&options, "amount", 0), Some(5));
    assert_eq!(find_integer_from(&options, "amount", 6), None);
    assert_eq!(find_integer_from(&options, "amount", -7), Some(-7));
    assert!(any_integer_below(&options, "amount", 0));
    assert!(!any_integer_below(&options, "amount", -7));
    assert!(!any_integer_below(&options, "code", 9));
    assert!(any_integer_below(&options, "code", 10));
    assert!(!any_integer_below(&Vec::new(), "amount", 0));
    assert_eq!(find_string(&Vec::new(), "code"), None);
}

#[test]
fn option_accessors() {
    let code = text_option("code", "AAA");
    assert!(code.is_named("code"));
    assert!(!code.is_named("Code"));
    assert_eq!(code.as_string(), Some(String::from("AAA")));
    assert_eq!(code.as_integer(), None);
    let amount = number_option("amount", -3);
    assert_eq!(amount.as_integer(), Some(-3));
    assert_eq!(amount.as_string(), None);
    assert_eq!(group("g", Vec::new()).as_string(), None);
    assert_eq!(flag_option("f", true).as_integer(), None);
    let other = CommandDataOption { name: String::from("o"), resolved: Some(CommandDataOptionValue::Other), options: Vec::new() };
    assert_eq!(other.as_string(), None);
    assert_eq!(other.as_integer(), None);
}

#[test]
fn user_mention() {
    assert_eq!(alice().mention(), "<@42>");
    assert_eq!(User::default().mention(), "<@0>");
    assert_eq!(User { id: u64::MAX, name: String::new() }.mention(), format!("<@{}>", u64::MAX));
    assert_eq!(User::default().name, "");
    let copy = alice().clone();
    assert_eq!(copy.id, 42);
    assert_eq!(copy.name, "alice");
}

#[test]
fn get_options_of_a_subcommand() {
    let data = command(vec![group("create", vec![text_option("code", "AAA"), text_option("name", "A")])]);
    assert_eq!(names(get_options(&data).unwrap()), vec!["code", "name"]);
}

#[test]
fn get_options_of_a_group_action() {
    let data = command(vec![group(
        "reserve",
        vec![group("add", vec![number_option("amount", 5), text_option("code", "AAA")])],
    )]);
    assert_eq!(names(get_options(&data).unwrap()), vec!["amount", "code"]);
}

#[test]
fn get_options_of_an_action_without_options() {
    let data = command(vec![group("database", vec![group("recreate", Vec::new())])]);
    assert_eq!(names(get_options(&data).unwrap()), vec!["recreate"]);
    let data = command(vec![group("list", Vec::new())]);
    assert_eq!(names(get_options(&data).unwrap()), Vec::<String>::new());
}

#[test]
fn get_options_without_a_subcommand() {
    let data = command(Vec::new());
    assert_eq!(get_options(&data).unwrap_err(), "Couldn't get subcommand data: indirection layer 1");
}

#[test]
fn quoted_text_is_the_debug_form_of_plain_texts() {
    for text in ["", "abc", "Couldn't get subcommand data: indirection layer 1", "Error: no currency code specified"] {
        assert_eq!(quoted_text(text), format!("{:?}", text));
    }
}

#[test]
fn boilerplate_handler_says_nothing() {
    let mut handler = BoilerplateHandler::new();
    assert_eq!(handler.get_name(), "boilerplate");
    assert_eq!(handler.get_description(), "This is a boilerplate for implementing ApplicationCommandHandler");
    assert_eq!(handler.get_option_kind(), CommandOptionType::SubCommandGroup);
    assert_eq!(handler.register().len(), 0);
    assert_eq!(handler.get_pattern().len(), 0);
    let response = handler.handle_application_command(&command(Vec::new())).unwrap();
    assert_eq!(response.get_text(), "");
    assert!(!response.is_interactive());
    let response = handler.handle_interaction_response(&press("anything")).unwrap();
    assert_eq!(response.get_text(), "");
}

#[test]
fn circulation_parse_options() {
    let handler = CirculationHandler::new();
    let options = vec![number_option("amount", 50), text_option("code", "GMK")];
    assert_eq!(handler.parse_options(&options, true), Ok((50, String::from("GMK"))));
    assert_eq!(handler.parse_options(&options, false), Ok((-50, String::from("GMK"))));
    assert_eq!(handler.parse_options(&Vec::new(), true), Ok((0, String::new())));
    let negative = vec![text_option("code", "GMK"), number_option("amount", -1)];
    assert_eq!(handler.parse_options(&negative, true), Err("add"));
    assert_eq!(handler.parse_options(&negative, false), Err("remove"));
    let first_negative = vec![number_option("amount", -1), number_option("amount", 5)];
    assert_eq!(handler.parse_options(&first_negative, true), Err("add"));
    let zero = vec![number_option("amount", 0)];
    assert_eq!(handler.parse_options(&zero, false), Ok((0, String::new())));
    let largest = vec![number_option("amount", i64::MAX)];
    assert_eq!(handler.parse_options(&largest, false), Ok((-i64::MAX, String::new())));
    let smallest = vec![number_option("amount", i64::MIN)];
    assert_eq!(handler.parse_options(&smallest, false), Err("remove"));
    let twice = vec![number_option("amount", 1), text_option("code", "AAA"), number_option("amount", 2), text_option("code", "BBB")];
    assert_eq!(handler.parse_options(&twice, true), Ok((2, String::from("BBB"))));
}

#[test]
fn circulation_command_is_read_and_remembered() {
    let mut handler = CirculationHandler::new();
    assert_eq!(handler.transaction_code(), "");
    assert_eq!(handler.transaction_amount(), 0);
    let data = command(vec![group(
        "circulation",
        vec![group("remove", vec![number_option("amount", 30), text_option("code", "GMK")])],
    )]);
    assert_eq!(handler.handle_application_command(&data), Ok((-30, String::from("GMK"), false)));
    assert_eq!(handler.transaction_code(), "GMK");
    assert_eq!(handler.transaction_amount(), -30);
    assert_eq!(handler.transaction_initiator().name, "alice");
    assert_eq!(handler.transaction_initiator().id, 42);

    let add = command(vec![group(
        "circulation",
        vec![group("add", vec![number_option("amount", 7), text_option("code", "AAA")])],
    )]);
    assert_eq!(handler.handle_application_command(&add), Ok((7, String::from("AAA"), true)));
    assert_eq!(handler.transaction_amount(), 7);
}

#[test]
fn circulation_command_errors() {
    let mut handler = CirculationHandler::new();
    assert_eq!(
        handler.handle_application_command(&command(Vec::new())),
        Err(String::from("Couldn't get subcommand data"))
    );
    assert_eq!(
        handler.handle_application_command(&command(vec![group("circulation", Vec::new())])),
        Err(String::from("Couldn't get subcommand options"))
    );
    let negative_add = command(vec![group("circulation", vec![group("add", vec![number_option("amount", -1)])])]);
    assert_eq!(
        handler.handle_application_command(&negative_add),
        Err(String::from("Can't use negative values with `/currency circulation add`. Please use `/currency circulation remove` instead."))
    );
    let negative_remove = command(vec![group("circulation", vec![group("remove", vec![number_option("amount", -1)])])]);
    assert_eq!(
        handler.handle_application_command(&negative_remove),
        Err(String::from("Can't use negative values with `/currency circulation remove`. Please use `/currency circulation add` instead."))
    );
    assert_eq!(handler.transaction_code(), "");
    assert_eq!(handler.transaction_amount(), 0);
}

#[test]
fn circulation_review_of_an_addition() {
    let handler = CirculationHandler::new();
    let response = handler.generate_command_response(&gold(), 50, true);
    assert!(response.is_interactive());
    assert!(response.is_ephemeral());
    assert!(!response.is_modal());
    assert_eq!(
        response.get_text(),
        "**Review currency circulation transaction**\n> Currency: **Gold Mark** `GMK`\n> Nation/State: *Goldland*\n> Amount: `50GMK`\n> New balance: `1050GMK`"
    );
    assert_eq!(
        buttons_of(response),
        vec![
            ("Confirm", ButtonStyle::Primary, "circulation-transaction-confirm"),
            ("Cancel", ButtonStyle::Secondary, "circulation-transaction-cancel"),
        ]
    );
}

#[test]
fn circulation_review_of_a_removal_warns() {
    let handler = CirculationHandler::new();
    let response = handler.generate_command_response(&gold(), -50, false);
    assert_eq!(
        response.get_text(),
        "**Review currency circulation transaction**\n> Currency: **Gold Mark** `GMK`\n> Nation/State: *Goldland*\n> Amount: `-50GMK`\n> New balance: `950GMK`\n**Warning**: You must only use this command if you are *certain* that you have removed the correct amount from circulation by repossessing and destroying it.\nUsing this command without doing so could result in prosecution by the Gold Standard organisation, as it will increase your currency's value illegally!"
    );
    assert_eq!(
        buttons_of(response),
        vec![
            ("Confirm", ButtonStyle::Danger, "circulation-transaction-confirm"),
            ("Cancel", ButtonStyle::Primary, "circulation-transaction-cancel"),
        ]
    );
}

#[test]
fn circulation_review_does_not_overflow() {
    let handler = CirculationHandler::new();
    let mut rich = gold();
    rich.circulation = i64::MAX;
    let response = handler.generate_command_response(&rich, i64::MAX, true);
    assert!(response.get_text().contains(&format!("New balance: `{}GMK`", i64::MAX as i128 * 2)));
}

#[test]
fn circulation_buttons() {
    assert_eq!(CirculationHandler::decision("circulation-transaction-confirm"), Decision::Confirm);
    assert_eq!(CirculationHandler::decision("circulation-transaction-cancel"), Decision::Cancel);
    assert_eq!(CirculationHandler::decision("reserve-transaction-confirm"), Decision::Unknown);
    assert_eq!(CirculationHandler::decision(""), Decision::Unknown);
    let handler = CirculationHandler::new();
    assert_eq!(handler.get_pattern(), vec!["circulation-transaction-confirm", "circulation-transaction-cancel"]);
    assert_eq!(handler.get_name(), "circulation");
    assert_eq!(handler.get_description(), "Manage circulation amounts of a currency");
    assert_eq!(handler.get_option_kind(), CommandOptionType::SubCommandGroup);
}

#[test]
fn circulation_confirmed_and_cancelled() {
    let mut handler = CirculationHandler::new();
    let data = command(vec![group(
        "circulation",
        vec![group("add", vec![number_option("amount", 50), text_option("code", "GMK")])],
    )]);
    handler.handle_application_command(&data).unwrap();
    let mut after = gold();
    after.circulation = 1050;
    let response = handler.confirmed_response(&press("circulation-transaction-confirm"), &after, 17);
    assert_eq!(response.get_feedback(), "Successfully completed currency circulation transaction!");
    assert_eq!(
        response.get_text(),
        "<@42> made a currency circulation transaction:\n> Currency: **Gold Mark** `GMK`\n> Nation/State: *Goldland*\n> Amount: `50GMK`\n> New balance: `1050GMK`\n> Transaction ID: `#00017`"
    );
    assert!(response.is_interactive());
    assert!(response.is_ephemeral());
    let cancelled = CirculationHandler::cancelled_response();
    assert_eq!(cancelled.get_feedback(), "Cancelled transaction. No records were updated.");
    assert_eq!(cancelled.get_text(), "");
    assert!(cancelled.is_interactive());
    let unknown = CirculationHandler::unknown_response();
    assert_eq!(unknown.get_text(), "");
    assert!(!unknown.is_interactive());
}

#[test]
fn circulation_register() {
    let options = CirculationHandler::new().register();
    assert_eq!(option_names(&options), vec!["add", "remove"]);
    for (option, amount_text) in options.iter().zip([
        "The amount of money to put into circulation",
        "The amount of money to remove from circulation",
    ]) {
        assert_eq!(option.kind, Some(CommandOptionType::SubCommand));
        assert_eq!(option_names(&option.options), vec!["amount", "code"]);
        let amount = &option.options[0];
        assert_eq!(amount.kind, Some(CommandOptionType::Integer));
        assert_eq!(amount.description, amount_text);
        assert!(amount.required);
        assert_eq!(amount.min_length, None);
        let code = &option.options[1];
        assert_eq!(code.kind, Some(CommandOptionType::String));
        assert_eq!(code.description, "The three-letter code of the target currency");
        assert!(code.required);
        assert_eq!(code.min_length, Some(3));
        assert_eq!(code.max_length, Some(3));
    }
    assert_eq!(options[0].description, "Put money into circulation");
    assert_eq!(options[1].description, "Remove money from circulation");
}

#[test]
fn reserve_command_and_review() {
    let mut handler = ReserveHandler::new();
    assert_eq!(handler.get_name(), "reserve");
    assert_eq!(handler.get_description(), "Manage gold reserves of a currency");
    assert_eq!(handler.get_pattern(), vec!["reserve-transaction-confirm", "reserve-transaction-cancel"]);
    let data = command(vec![group(
        "reserve",
        vec![group("remove", vec![number_option("amount", 50), text_option("code", "GMK")])],
    )]);
    assert_eq!(handler.handle_application_command(&data), Ok((-50, String::from("GMK"), false)));
    assert_eq!(handler.transaction_amount(), -50);
    let response = handler.owner_response(&data, &gold(), -50).ok().unwrap();
    assert_eq!(
        response.get_text(),
        "**Review gold reserve transaction**\n> Currency: **Gold Mark** `GMK`\n> Nation/State: *Goldland*\n> Amount: `-50 ingots`\n> New balance: `200 ingots`"
    );
    assert!(response.is_ephemeral());
    assert_eq!(
        buttons_of(response),
        vec![
            ("Confirm", ButtonStyle::Primary, "reserve-transaction-confirm"),
            ("Cancel", ButtonStyle::Secondary, "reserve-transaction-cancel"),
        ]
    );
}

#[test]
fn reserve_refuses_who_is_not_the_owner() {
    let handler = ReserveHandler::new();
    let mut theirs = gold();
    theirs.owner = String::from("bob");
    let data = command(Vec::new());
    assert_eq!(
        handler.owner_response(&data, &theirs, 5).err().unwrap(),
        "Error: you are not the owner of this currency, and therefore cannot modify it"
    );
}

#[test]
fn reserve_errors_and_buttons() {
    let mut handler = ReserveHandler::new();
    assert_eq!(
        handler.handle_application_command(&command(Vec::new())),
        Err(String::from("Couldn't get subcommand data"))
    );
    assert_eq!(
        handler.handle_application_command(&command(vec![group("reserve", Vec::new())])),
        Err(String::from("Couldn't get options from application data"))
    );
    let negative = command(vec![group("reserve", vec![group("add", vec![number_option("amount", -1)])])]);
    assert_eq!(
        handler.handle_application_command(&negative),
        Err(String::from("Can't use negative values with `/currency reserve add`. Please use `/currency reserve remove` instead."))
    );
    let negative = command(vec![group("reserve", vec![group("remove", vec![number_option("amount", -1)])])]);
    assert_eq!(
        handler.handle_application_command(&negative),
        Err(String::from("Can't use negative values with `/currency reserve remove`. Please use `/currency reserve add` instead."))
    );
    assert_eq!(handler.parse_options(&vec![number_option("amount", 4)], false), Ok((-4, String::new())));
    assert_eq!(ReserveHandler::decision("reserve-transaction-confirm"), Decision::Confirm);
    assert_eq!(ReserveHandler::decision("reserve-transaction-cancel"), Decision::Cancel);
    assert_eq!(ReserveHandler::decision("circulation-transaction-confirm"), Decision::Unknown);
    assert_eq!(ReserveHandler::cancelled_response().get_feedback(), "Cancelled transaction. No records were updated.");
    assert_eq!(ReserveHandler::unknown_response().get_text(), "");
}

#[test]
fn reserve_confirmed() {
    let mut handler = ReserveHandler::new();
    let data = command(vec![group(
        "reserve",
        vec![group("add", vec![number_option("amount", 50), text_option("code", "GMK")])],
    )]);
    handler.handle_application_command(&data).unwrap();
    let mut after = gold();
    after.reserves = 300;
    let response = handler.confirmed_response(&press("reserve-transaction-confirm"), &after, 123456);
    assert_eq!(response.get_feedback(), "Successfully completed gold reserve transaction!");
    assert_eq!(
        response.get_text(),
        "<@42> made a gold reserve transaction:\n> Currency: **Gold Mark** `GMK`\n> Nation/State: *Goldland*\n> Amount: `50 ingots`\n> New balance: `300 ingots`\n> Transaction ID: `#123456`"
    );
}

#[test]
fn reserve_register() {
    let options = ReserveHandler::new().register();
    assert_eq!(option_names(&options), vec!["add", "remove"]);
    assert_eq!(options[0].description, "Add gold to federal reserves");
    assert_eq!(options[1].description, "Remove gold from federal reserves");
    assert_eq!(options[0].options[0].description, "The amount of gold to add");
    assert_eq!(options[1].options[0].description, "The amount of gold to remove");
    assert_eq!(options[1].options[1].max_length, Some(3));
}

#[test]
fn create_parse_options() {
    let handler = CreateHandler::new();
    let all = vec![
        text_option("code", "GMK"),
        text_option("name", "Gold Mark"),
        text_option("state", "Goldland"),
        number_option("initial_circulation", 1000),
        number_option("initial_reserve", 250),
    ];
    assert_eq!(
        handler.parse_options(&all),
        Ok((String::from("GMK"), String::from("Gold Mark"), String::from("Goldland"), 250, 1000))
    );
    let bare = vec![text_option("state", "S"), text_option("name", "N"), text_option("code", "C")];
    assert_eq!(handler.parse_options(&bare), Ok((String::from("C"), String::from("N"), String::from("S"), 0, 0)));
    let negative = vec![
        text_option("code", "C"),
        text_option("name", "N"),
        text_option("state", "S"),
        number_option("initial_circulation", 5),
        number_option("initial_circulation", -1),
        number_option("initial_reserve", -9),
    ];
    assert_eq!(handler.parse_options(&negative), Ok((String::from("C"), String::from("N"), String::from("S"), 0, 5)));
}

#[test]
fn create_parse_errors_in_order() {
    let handler = CreateHandler::new();
    assert_eq!(handler.parse_options(&Vec::new()), Err(String::from("Error: no currency code specified")));
    assert_eq!(
        handler.parse_options(&vec![text_option("name", "N"), text_option("state", "S")]),
        Err(String::from("Error: no currency code specified"))
    );
    assert_eq!(
        handler.parse_options(&vec![text_option("code", "C"), text_option("state", "S")]),
        Err(String::from("Error: no currency name specified"))
    );
    assert_eq!(
        handler.parse_options(&vec![text_option("code", "C"), text_option("name", "N")]),
        Err(String::from("Error: no currency state specified"))
    );
    assert_eq!(
        handler.parse_options(&vec![number_option("code", 1), text_option("name", "N"), text_option("state", "S")]),
        Err(String::from("Error: no currency code specified"))
    );
}

#[test]
fn create_command() {
    let mut handler = CreateHandler::new();
    assert_eq!(handler.get_name(), "create");
    assert_eq!(handler.get_description(), "Create a new currency");
    assert_eq!(handler.get_option_kind(), CommandOptionType::SubCommand);
    let data = command(vec![group(
        "create",
        vec![text_option("code", "GMK"), text_option("name", "Gold Mark"), text_option("state", "Goldland"), number_option("initial_reserve", 9)],
    )]);
    let new = handler.handle_application_command(&data).unwrap();
    assert_eq!(new.currency_code, "GMK");
    assert_eq!(new.currency_name, "Gold Mark");
    assert_eq!(new.currency_state, "Goldland");
    assert_eq!(new.initial_reserves, 9);
    assert_eq!(new.initial_circulation, 0);
    assert_eq!(new.owner, "alice");
    assert_eq!(
        handler.handle_application_command(&command(Vec::new())).unwrap_err(),
        "Error while getting options from command data: \"Couldn't get subcommand data: indirection layer 1\""
    );
    assert_eq!(
        handler.handle_application_command(&command(vec![group("create", vec![text_option("code", "C")])])).unwrap_err(),
        "Error while parsing options: \"Error: no currency name specified\""
    );
}

#[test]
fn create_response_and_register() {
    let response = CreateHandler::created_response(&command(Vec::new()), &gold());
    assert_eq!(
        response.get_text(),
        "<@42> created new currency:\n> **Gold Mark** (*Goldland*)\n> Currency Code: `GMK`\n> Initial circulation: `1000GMK`\n> Initial gold reserve: `250 ingots`"
    );
    assert!(!response.is_interactive());
    assert!(!response.is_ephemeral());
    let options = CreateHandler::new().register();
    assert_eq!(option_names(&options), vec!["code", "name", "state", "initial_circulation", "initial_reserve"]);
    assert_eq!(options[0].min_length, Some(3));
    assert_eq!(options[0].max_length, Some(3));
    assert!(options[0].required && options[1].required && options[2].required);
    assert!(!options[3].required && !options[4].required);
    assert_eq!(options[3].kind, Some(CommandOptionType::Integer));
    assert_eq!(options[1].description, "The name of your new currency! This does *not* need to be unique");
    assert_eq!(options[4].description, "The initial amount of gold in your federal reserve. Leave this blank if you're unsure.");
}

#[test]
fn delete_command_and_lookup() {
    let mut handler = DeleteHandler::new();
    assert_eq!(handler.get_name(), "delete");
    assert_eq!(handler.get_description(), "Delete a currency from the database");
    assert_eq!(handler.get_option_kind(), CommandOptionType::SubCommand);
    assert_eq!(handler.get_pattern(), vec!["delete-confirm", "delete-cancel"]);
    let data = command(vec![group("delete", vec![text_option("code", "GMK")])]);
    assert_eq!(handler.handle_application_command(&data), Ok(String::from("GMK")));
    assert_eq!(handler.currency_code(), "");
    let response = handler.found_response(&data, "GMK", Some(&gold())).ok().unwrap();
    assert_eq!(handler.currency_code(), "GMK");
    assert_eq!(
        response.get_text(),
        "Confirm you really want to delete the currency **Gold Mark** `GMK`?\n*This is not reversible*"
    );
    assert!(response.is_ephemeral());
    assert_eq!(
        buttons_of(response),
        vec![("Confirm", ButtonStyle::Danger, "delete-confirm"), ("Cancel", ButtonStyle::Primary, "delete-cancel")]
    );
    let deleted = handler.deleted_response(&press("delete-confirm"));
    assert_eq!(deleted.get_feedback(), "Successfully deleted currency **Gold Mark** `GMK`");
    assert_eq!(deleted.get_text(), "<@42> deleted currency **Gold Mark** `GMK`");
    let kept = handler.kept_response();
    assert_eq!(kept.get_feedback(), "Will not delete currency **Gold Mark** `GMK`");
    assert_eq!(kept.get_text(), "");
}

#[test]
fn delete_errors() {
    let mut handler = DeleteHandler::new();
    assert_eq!(
        handler.handle_application_command(&command(Vec::new())).unwrap_err(),
        "Error while getting options from command data: \"Couldn't get subcommand data: indirection layer 1\""
    );
    assert_eq!(
        handler.handle_application_command(&command(vec![group("delete", Vec::new())])).unwrap_err(),
        "Error while parsing options: \"Error: no currency code specified\""
    );
    assert_eq!(handler.parse_options(&Vec::new()), Err(String::from("Error: no currency code specified")));
    assert_eq!(handler.parse_options(&vec![text_option("code", "A"), text_option("code", "B")]), Ok(String::from("B")));
    let data = command(Vec::new());
    assert_eq!(
        handler.found_response(&data, "XYZ", None).err().unwrap(),
        "Error: could not find the currency code `XYZ`"
    );
    let mut theirs = gold();
    theirs.owner = String::from("bob");
    assert_eq!(
        handler.found_response(&data, "GMK", Some(&theirs)).err().unwrap(),
        "Error: you are not the owner of this currency, and therefore cannot modify it"
    );
    assert_eq!(handler.currency_code(), "");
    assert_eq!(DeleteHandler::decision("delete-confirm"), Decision::Confirm);
    assert_eq!(DeleteHandler::decision("delete-cancel"), Decision::Cancel);
    assert_eq!(DeleteHandler::decision("anything"), Decision::Cancel);
    let options = handler.register();
    assert_eq!(option_names(&options), vec!["code"]);
    assert_eq!(options[0].description, "The three-letter currency code to delete.");
    assert!(options[0].required);
}

#[test]
fn database_command() {
    let mut handler = DatabaseHandler::new(String::from("secret"));
    assert_eq!(handler.get_name(), "database");
    assert_eq!(handler.get_description(), "Manage and recreate the Economist Bot database");
    assert_eq!(handler.get_option_kind(), CommandOptionType::SubCommandGroup);
    assert_eq!(
        handler.get_pattern(),
        vec!["recreate-database-confirm", "recreate-database-cancel", "database-password-modal"]
    );
    let data = command(vec![group("database", vec![group("recreate", Vec::new())])]);
    let mut response = handler.handle_application_command(&data).ok().unwrap();
    assert!(response.is_modal());
    assert!(response.is_interactive());
    assert!(response.is_ephemeral());
    assert_eq!(response.get_text(), "database-password-modal");
    let components = response.get_interactive_data();
    assert_eq!(components.rows.len(), 1);
    assert_eq!(components.rows[0].components.len(), 1);
    match &components.rows[0].components[0] {
        CreateComponent::InputText(input) => {
            assert_eq!(input.custom_id, "database-password-input");
            assert_eq!(input.label, "Enter password to delete database");
            assert_eq!(input.placeholder, "Enter password (this is not reversible!)");
            assert!(input.required);
            assert_eq!(input.style, InputTextStyle::Short);
        }
        other => panic!("expected a text field, got {:?}", other),
    }
    assert_eq!(
        handler.handle_application_command(&command(vec![group("database", vec![group("drop", Vec::new())])])).err().unwrap(),
        "Error: couldn't find the requested subcommand"
    );
    assert_eq!(
        handler.handle_application_command(&command(vec![group("database", Vec::new())])).err().unwrap(),
        "Error while parsing options: Couldn't get subcommand data"
    );
    assert_eq!(
        handler.handle_application_command(&command(Vec::new())).err().unwrap(),
        "Error while getting options from command data: \"Couldn't get subcommand data: indirection layer 1\""
    );
    let options = handler.register();
    assert_eq!(option_names(&options), vec!["recreate"]);
    assert_eq!(options[0].kind, Some(CommandOptionType::SubCommand));
    assert_eq!(
        options[0].description,
        "Recreate the entire currency database, starting from scratch. DANGER, THIS IS NOT REVERSIBLE!!!"
    );
}

fn modal(custom_id: &str, rows: Vec<Vec<ActionRowComponent>>) -> ModalSubmitInteraction {
    ModalSubmitInteraction {
        custom_id: String::from(custom_id),
        user: alice(),
        components: rows.into_iter().map(|components| ActionRow { components }).collect(),
    }
}

fn typed(value: &str) -> ActionRowComponent {
    ActionRowComponent::InputText { custom_id: String::from("database-password-input"), value: String::from(value) }
}

#[test]
fn database_modal() {
    let handler = DatabaseHandler::new(String::from("secret"));
    assert_eq!(handler.handle_modal_submit(&modal("recreate-database-confirm", Vec::new())), Ok(Decision::Confirm));
    assert_eq!(handler.handle_modal_submit(&modal("recreate-database-cancel", Vec::new())), Ok(Decision::Cancel));
    assert_eq!(handler.handle_modal_submit(&modal("database-password-modal", vec![vec![typed("secret")]])), Ok(Decision::Confirm));
    assert_eq!(
        handler.handle_modal_submit(&modal("database-password-modal", vec![vec![typed("secret"), typed("x")], vec![typed("y")]])),
        Ok(Decision::Confirm)
    );
    assert_eq!(
        handler.handle_modal_submit(&modal("database-password-modal", vec![vec![typed("Secret")]])),
        Err(String::from("Error: incorrect password for database"))
    );
    assert_eq!(
        handler.handle_modal_submit(&modal("database-password-modal", vec![vec![typed("")]])),
        Err(String::from("Error: incorrect password for database"))
    );
    assert_eq!(
        handler.handle_modal_submit(&modal("database-password-modal", Vec::new())),
        Err(String::from("Error while building response: could not get input data"))
    );
    assert_eq!(
        handler.handle_modal_submit(&modal("database-password-modal", vec![Vec::new()])),
        Err(String::from("Error while building response: could not get action row"))
    );
    assert_eq!(
        handler.handle_modal_submit(&modal("database-password-modal", vec![vec![ActionRowComponent::Other]])),
        Err(String::from("Error: couldn't find input text in components"))
    );
    assert_eq!(
        handler.handle_modal_submit(&modal("something-else", vec![vec![typed("secret")]])),
        Err(String::from("Error: unknown custom id"))
    );
    let open = DatabaseHandler::new(String::new());
    assert_eq!(open.handle_modal_submit(&modal("database-password-modal", vec![vec![typed("")]])), Ok(Decision::Confirm));
}

#[test]
fn database_answers() {
    let recreated = DatabaseHandler::recreated_response(&modal("database-password-modal", Vec::new()));
    assert_eq!(recreated.get_feedback(), "Database successfully recreated");
    assert_eq!(recreated.get_text(), "<@42> recreated the Economist Bot database. All stored data has been lost.");
    assert!(recreated.is_ephemeral());
    let cancelled = DatabaseHandler::cancelled_response();
    assert_eq!(cancelled.get_feedback(), "Cancelled deleting database (this is probably a good thing)");
    assert_eq!(cancelled.get_text(), "");
}

#[test]
fn list_parse_options() {
    let handler = ListHandler::new();
    assert_eq!(handler.parse_options(&Vec::new()), Ok((CurrencySort::Name, 10)));
    for (choice, sort) in [
        ("code", CurrencySort::CurrencyCode),
        ("name", CurrencySort::Name),
        ("state", CurrencySort::State),
        ("reserves", CurrencySort::Reserves),
        ("circulation", CurrencySort::Circulation),
        ("value", CurrencySort::Value),
        ("nonsense", CurrencySort::CurrencyCode),
        ("", CurrencySort::CurrencyCode),
    ] {
        assert_eq!(handler.parse_options(&vec![text_option("sort", choice)]), Ok((sort, 10)));
        assert_eq!(ListHandler::sort_for(choice), sort);
    }
    assert_eq!(
        handler.parse_options(&vec![number_option("number", 25), text_option("sort", "value")]),
        Ok((CurrencySort::Value, 25))
    );
    assert_eq!(handler.parse_options(&vec![number_option("number", 1)]), Ok((CurrencySort::Name, 1)));
    assert_eq!(
        handler.parse_options(&vec![number_option("number", 0)]),
        Err(String::from("Can't have a negative number of currencies to return."))
    );
    assert_eq!(
        handler.parse_options(&vec![number_option("number", 5), number_option("number", -5)]),
        Err(String::from("Can't have a negative number of currencies to return."))
    );
    assert_eq!(handler.parse_options(&vec![number_option("sort", 3)]), Ok((CurrencySort::Name, 10)));
}

#[test]
fn list_command_and_register() {
    let mut handler = ListHandler::new();
    assert_eq!(handler.get_name(), "list");
    assert_eq!(handler.get_description(), "List currencies in circulation, optionally specifying a number and ordering");
    assert_eq!(handler.get_option_kind(), CommandOptionType::SubCommand);
    let data = command(vec![group("list", vec![text_option("sort", "reserves"), number_option("number", 3)])]);
    assert_eq!(handler.handle_application_command(&data), Ok((CurrencySort::Reserves, 3)));
    assert_eq!(
        handler.handle_application_command(&command(Vec::new())).unwrap_err(),
        "Error while parsing options: \"Couldn't get subcommand data: indirection layer 1\""
    );
    assert_eq!(
        handler.handle_application_command(&command(vec![group("list", vec![number_option("number", -1)])])).unwrap_err(),
        "Can't have a negative number of currencies to return."
    );
    let options = handler.register();
    assert_eq!(option_names(&options), vec!["number", "sort"]);
    assert_eq!(options[0].kind, Some(CommandOptionType::Integer));
    assert_eq!(options[0].description, "Number of currencies to list");
    assert_eq!(options[1].description, "Attribute to sort currency list by");
    let choices: Vec<(&str, &str)> = options[1].choices.iter().map(|c| (c.name, c.value)).collect();
    assert_eq!(
        choices,
        vec![
            ("Name", "name"),
            ("Nation/State", "state"),
            ("Currency Code", "code"),
            ("Gold Reserves", "reserves"),
            ("Circulation", "circulation"),
            ("Value", "value"),
        ]
    );
}

fn listed(currency: CurrencyData) -> ListedCurrency {
    let value = currency.value();
    let value_text = format!("{:.3}", value.numerator() as f64 / value.denominator() as f64);
    ListedCurrency { currency, value_text }
}

fn list_as_formatted(sort: CurrencySort, currencies: &Vec<ListedCurrency>) -> String {
    let mut currency_desc = "Currency Name";
    let mut code_desc = "Code";
    let mut state_desc = "Nation/State";
    let mut reserve_desc = "Gold Reserves";
    let mut circulation_desc = "Circulation";
    let mut value_desc = "Value";
    match sort {
        CurrencySort::Name => currency_desc = "\u{001b}[1;32mCurrency Name\u{001b}[0m",
        CurrencySort::CurrencyCode => code_desc = "\u{001b}[1;32mCode\u{001b}[0m",
        CurrencySort::State => state_desc = "\u{001b}[1;32mNation/State\u{001b}[0m",
        CurrencySort::Reserves => reserve_desc = "\u{001b}[1;32mGold Reserves\u{001b}[0m",
        CurrencySort::Circulation => circulation_desc = "\u{001b}[1;32mCirculation\u{001b}[0m",
        CurrencySort::Value => value_desc = "\u{001b}[1;32mValue\u{001b}[0m",
    };
    let mut list = "**Currency List**\n```ansi\n┏━━━━━━━━━━━━━━━━━━━━━━━━━━━━━━━━━━━━┳━━━━━━━━━━━━━━━━━━━━━━━━━━━━━━┳━━━━━━━━━━━━━━┳━━━━━━━━━━━┳━━━━━━━━━━━━━━━━━┓".to_string();
    list += format!("\n┃{code_desc} and {currency_desc}              ┃{state_desc}                  ┃{reserve_desc} ┃{circulation_desc}┃{value_desc}            ┃").as_str();
    list += "\n┣━━━━━━━━━━━━━━━━━━━━━━━━━━━━━━━━━━━━╋━━━━━━━━━━━━━━━━━━━━━━━━━━━━━━╋━━━━━━━━━━━━━━╋━━━━━━━━━━━╋━━━━━━━━━━━━━━━━━┫";
    for entry in currencies {
        let currency = &entry.currency;
        let value = currency.value();
        list += format!(
            "\n┃[\u{001b}[36m{0: <3.3}\u{001b}[0m] \u{001b}[1m{1: <30.30}\u{001b}[0m┃{5: <30.30}┃\u{001b}[1;33m{2: >7.7}\u{001b}[0m ingots┃\u{001b}[1;34m{3: >7.7}\u{001b}[0m {0}┃\u{001b}[1;35m{4: <3.3}\u{001b}[0m {0} / ingot┃",
            currency.currency_code,
            currency.currency_name,
            currency.reserves,
            currency.circulation,
            value.numerator() as f64 / value.denominator() as f64,
            currency.state
        ).as_str()
    }
    list += "\n┗━━━━━━━━━━━━━━━━━━━━━━━━━━━━━━━━━━━━┻━━━━━━━━━━━━━━━━━━━━━━━━━━━━━━┻━━━━━━━━━━━━━━┻━━━━━━━━━━━┻━━━━━━━━━━━━━━━━━┛```";
    list
}

#[test]
fn list_table_is_what_the_format_strings_give() {
    let mut long = gold();
    long.currency_name = String::from("A currency with a name far longer than thirty characters");
    long.currency_code = String::from("LONGER");
    long.state = String::from("Ünïted Kingdöm of Somewhere Rather Far Away from Here");
    long.reserves = 123456789;
    long.circulation = -12;
    let mut short = gold();
    short.currency_code = String::from("A");
    short.currency_name = String::new();
    short.reserves = 0;
    let rows = vec![listed(gold()), listed(long), listed(short)];
    for sort in [
        CurrencySort::Name,
        CurrencySort::CurrencyCode,
        CurrencySort::State,
        CurrencySort::Reserves,
        CurrencySort::Circulation,
        CurrencySort::Value,
    ] {
        assert_eq!(ListHandler::table(sort, &rows), list_as_formatted(sort, &rows));
        assert_eq!(ListHandler::table(sort, &Vec::new()), list_as_formatted(sort, &Vec::new()));
    }
    let response = ListHandler::list_response(CurrencySort::Value, &rows);
    assert_eq!(response.get_text(), list_as_formatted(CurrencySort::Value, &rows));
    assert!(response.is_interactive());
    assert!(response.is_ephemeral());
}

#[test]
fn list_row_of_one_currency() {
    assert_eq!(
        ListHandler::row(&gold(), "0.250"),
        "\n┃[\u{001b}[36mGMK\u{001b}[0m] \u{001b}[1mGold Mark                     \u{001b}[0m┃Goldland                      ┃\u{001b}[1;33m    250\u{001b}[0m ingots┃\u{001b}[1;34m   1000\u{001b}[0m GMK┃\u{001b}[1;35m0.250\u{001b}[0m GMK / ingot┃"
    );
}

#[test]
fn modify_parse_options() {
    let handler = ModifyHandler::new();
    let options = handler
        .parse_options(&vec![
            text_option("code", "GMK"),
            text_option("name", "New Name"),
            text_option("old_code", "OLD"),
            text_option("new_code", "NEW"),
            number_option("state", 4),
        ])
        .unwrap();
    assert_eq!(options.code, Some(String::from("GMK")));
    assert_eq!(options.name, Some(String::from("New Name")));
    assert_eq!(options.state, None);
    assert_eq!(options.old_code, Some(String::from("OLD")));
    assert_eq!(options.new_code, Some(String::from("NEW")));
    let none = handler.parse_options(&Vec::new()).unwrap();
    assert!(none.code.is_none() && none.name.is_none() && none.state.is_none());
    assert!(none.old_code.is_none() && none.new_code.is_none());
}

fn modify_command(action: &str, options: Vec<CommandDataOption>) -> ApplicationCommandInteraction {
    command(vec![group("modify", vec![group(action, options)])])
}

#[test]
fn modify_command_changes() {
    let mut handler = ModifyHandler::new();
    assert_eq!(handler.get_name(), "modify");
    assert_eq!(handler.get_description(), "Modify currency name, state or currency code");
    assert_eq!(handler.get_option_kind(), CommandOptionType::SubCommandGroup);
    let change = handler
        .handle_application_command(&modify_command("code", vec![text_option("old_code", "OLD"), text_option("new_code", "NEW")]))
        .unwrap();
    assert_eq!((change.currency_code.as_str(), change.kind, change.data.as_str()), ("OLD", ModifyMetaType::Code, "NEW"));
    let change = handler
        .handle_application_command(&modify_command("state", vec![text_option("code", "GMK"), text_option("state", "Newland")]))
        .unwrap();
    assert_eq!((change.currency_code.as_str(), change.kind, change.data.as_str()), ("GMK", ModifyMetaType::State, "Newland"));
    let change = handler
        .handle_application_command(&modify_command("name", vec![text_option("code", "GMK"), text_option("name", "New Mark")]))
        .unwrap();
    assert_eq!((change.currency_code.as_str(), change.kind, change.data.as_str()), ("GMK", ModifyMetaType::Name, "New Mark"));
}

#[test]
fn modify_command_errors() {
    let mut handler = ModifyHandler::new();
    let bad = "Error while updating currency data: Protocol(\"Error in command arguments\")";
    assert_eq!(handler.handle_application_command(&modify_command("code", vec![text_option("old_code", "OLD")])).unwrap_err(), bad);
    assert_eq!(handler.handle_application_command(&modify_command("state", vec![text_option("state", "S")])).unwrap_err(), bad);
    assert_eq!(
        handler.handle_application_command(&modify_command("name", vec![text_option("code", "GMK"), text_option("state", "S")])).unwrap_err(),
        bad
    );
    assert_eq!(
        handler.handle_application_command(&modify_command("owner", vec![text_option("code", "GMK"), text_option("name", "N")])).unwrap_err(),
        bad
    );
    assert_eq!(
        handler.handle_application_command(&command(vec![group("modify", Vec::new())])).unwrap_err(),
        "Error while parsing options: Couldn't get which sub-subcommand to run"
    );
    assert_eq!(
        handler.handle_application_command(&command(Vec::new())).unwrap_err(),
        "Error while getting options from command data: \"Couldn't get subcommand data: indirection layer 1\""
    );
}

#[test]
fn modify_responses() {
    let data = command(Vec::new());
    let response = ModifyHandler::modified_response(&data, "code", &gold());
    assert_eq!(response.get_feedback(), "Successfully modified currency **Gold Mark** `GMK`");
    assert_eq!(response.get_text(), "<@42> modified currency **Gold Mark**:\n> Currency Code -> `GMK`");
    assert!(!response.is_ephemeral());
    assert!(response.is_interactive());
    let response = ModifyHandler::modified_response(&data, "state", &gold());
    assert_eq!(response.get_text(), "<@42> modified currency **Gold Mark**:\n> Nation/State -> *Goldland*");
    let response = ModifyHandler::modified_response(&data, "name", &gold());
    assert_eq!(response.get_text(), "<@42> modified currency `GMK`:\n> Currency Name -> **Gold Mark**");
    let response = ModifyHandler::modified_response(&data, "other", &gold());
    assert_eq!(response.get_text(), "<@42> modified currency `GMK`:\n> ");
}

#[test]
fn modify_register() {
    let options = ModifyHandler::new().register();
    assert_eq!(option_names(&options), vec!["name", "state", "code"]);
    assert_eq!(option_names(&options[0].options), vec!["code", "name"]);
    assert_eq!(option_names(&options[1].options), vec!["code", "state"]);
    assert_eq!(option_names(&options[2].options), vec!["old_code", "new_code"]);
    assert_eq!(options[0].description, "Modify currency name");
    assert_eq!(options[1].description, "Modify nation/state of origin of a currency");
    assert_eq!(options[2].description, "Modify three-letter currency code");
    assert_eq!(options[0].options[1].min_length, None);
    assert_eq!(options[2].options[0].min_length, Some(3));
    assert_eq!(options[2].options[1].max_length, Some(3));
    for option in &options {
        assert_eq!(option.kind, Some(CommandOptionType::SubCommand));
        for sub in &option.options {
            assert_eq!(sub.kind, Some(CommandOptionType::String));
            assert!(sub.required);
        }
    }
}

#[test]
fn records_parse_options() {
    let handler = RecordsHandler::new();
    assert_eq!(handler.parse_options(&Vec::new()), Ok((10, String::new())));
    assert_eq!(
        handler.parse_options(&vec![text_option("code", "GMK"), number_option("number", 3)]),
        Ok((3, String::from("GMK")))
    );
    assert_eq!(
        handler.parse_options(&vec![number_option("number", 0), text_option("code", "GMK")]),
        Err(String::from("Number cannot be less than or equal to zero"))
    );
    assert_eq!(
        handler.parse_options(&vec![number_option("number", -4)]),
        Err(String::from("Number cannot be less than or equal to zero"))
    );
    assert_eq!(handler.parse_options(&vec![number_option("number", 1)]), Ok((1, String::new())));
}

#[test]
fn records_command_and_register() {
    let mut handler = RecordsHandler::new();
    assert_eq!(handler.get_name(), "records");
    assert_eq!(handler.get_description(), "View past currency end-of-day records");
    assert_eq!(handler.get_option_kind(), CommandOptionType::SubCommand);
    let data = command(vec![group("records", vec![text_option("code", "GMK")])]);
    assert_eq!(handler.handle_application_command(&data), Ok((10, String::from("GMK"))));
    assert_eq!(
        handler.handle_application_command(&command(vec![group("records", vec![number_option("number", 0)])])).unwrap_err(),
        "Error while parsing options: \"Number cannot be less than or equal to zero\""
    );
    assert_eq!(
        handler.handle_application_command(&command(Vec::new())).unwrap_err(),
        "Error while getting options from command data: \"Couldn't get subcommand data: indirection layer 1\""
    );
    let options = handler.register();
    assert_eq!(option_names(&options), vec!["code", "number"]);
    assert!(options[0].required);
    assert_eq!(options[0].min_length, Some(3));
    assert_eq!(options[0].max_length, Some(3));
    assert_eq!(options[0].description, "Three-letter currency code to view records for");
    assert_eq!(options[1].description, "Maximum number of records to fetch");
    assert!(!options[1].required);
}

fn float_of(v: &Value) -> f64 {
    v.numerator() as f64 / v.denominator() as f64
}

fn listed_record(record: RecordData) -> ListedRecord {
    let delta = record.delta_value();
    ListedRecord {
        record,
        opening_text: format!("{:.3}", float_of(&record.opening_value())),
        closing_text: format!("{:.3}", float_of(&record.closing_value())),
        delta_text: format!("{:.3}", delta.numerator() as f64 / delta.denominator() as f64),
    }
}

fn records_as_formatted(currency: &CurrencyData, records: &Vec<ListedRecord>) -> String {
    let currency_string = format!("[\u{001b}[36m{0}\u{001b}[0m] \u{001b}[1m{1}\u{001b}[0m\n", currency.currency_code, currency.currency_name);
    let mut final_string = format!("```ansi\nRecord list for {}\n", currency_string);
    final_string += "┏━━━━━━━━━━┳━━━━━━━━━━━━━━━━━┳━━━━━━━━━━━━━━━━━┳━━━━━━━━━━━━━━━━┳━━━━━━━━━━━━━━┓\n";
    final_string += "┃Date      ┃Value at Opening ┃Value at Closing ┃Change in Value ┃Performance   ┃\n";
    final_string += "┣━━━━━━━━━━╋━━━━━━━━━━━━━━━━━╋━━━━━━━━━━━━━━━━━╋━━━━━━━━━━━━━━━━╋━━━━━━━━━━━━━━┫";
    for entry in records {
        let record = &entry.record;
        let date = record.record_date();
        let their_date = chrono::NaiveDate::from_ymd_opt(date.year, date.month, date.day).unwrap();
        let delta = record.delta_value();
        let performance_description = if record.growth() == 0 {
            "Holding Steady"
        } else if record.growth() < 0 {
            "In Decline"
        } else {
            "Gaining Value"
        };
        let performance_color = if record.growth() == 0 {
            "\u{001b}[1m"
        } else if record.growth() < 0 {
            "\u{001b}[1;31m"
        } else {
            "\u{001b}[1;32m"
        };
        final_string += format!(
            "\n┃{0: <10.10}┃\u{001b}[1;35m{1: <5.3}\u{001b}[0m ingot / {5}┃\u{001b}[1;35m{2: <5.3}\u{001b}[0m ingot / {5}┃{performance_color}{3: <16.3}\u{001b}[0m┃{performance_color}{4: <14.14}\u{001b}[0m┃",
            their_date,
            float_of(&record.opening_value()),
            float_of(&record.closing_value()),
            delta.numerator() as f64 / delta.denominator() as f64,
            performance_description,
            currency.currency_code
        ).as_str()
    }
    final_string += "\n┗━━━━━━━━━━┻━━━━━━━━━━━━━━━━━┻━━━━━━━━━━━━━━━━━┻━━━━━━━━━━━━━━━━┻━━━━━━━━━━━━━━┛```";
    final_string
}

#[test]
fn records_table_is_what_the_format_strings_give() {
    let day = |day: u32| RecordDate { year: 2023, month: 6, day };
    let records = vec![
        listed_record(RecordData::new(3, day(3), 3, Value::of(100, 50), Value::of(150, 50))),
        listed_record(RecordData::new(2, day(2), 3, Value::of(150, 50), Value::of(1, 3))),
        listed_record(RecordData::new(1, day(1), 3, Value::of(1, 4), Value::of(1, 4))),
        listed_record(RecordData::new(0, day(30), 3, Value::of(123456789, 1), Value::of(0, 4))),
    ];
    assert_eq!(RecordsHandler::table(&gold(), &records), records_as_formatted(&gold(), &records));
    assert_eq!(RecordsHandler::table(&gold(), &Vec::new()), records_as_formatted(&gold(), &Vec::new()));
    let response = RecordsHandler::records_response(&gold(), &records);
    assert_eq!(response.get_text(), records_as_formatted(&gold(), &records));
    assert!(response.is_interactive());
    assert!(response.is_ephemeral());
}

#[test]
fn records_performance_words_and_colours() {
    assert_eq!(RecordsHandler::performance(0), "Holding Steady");
    assert_eq!(RecordsHandler::performance(-1), "In Decline");
    assert_eq!(RecordsHandler::performance(1), "Gaining Value");
    assert_eq!(RecordsHandler::colour(0), "\u{001b}[1m");
    assert_eq!(RecordsHandler::colour(-1), "\u{001b}[1;31m");
    assert_eq!(RecordsHandler::colour(1), "\u{001b}[1;32m");
}

#[test]
fn view_command_and_register() {
    let mut handler = ViewHandler::new();
    assert_eq!(handler.get_name(), "view");
    assert_eq!(handler.get_description(), "View detailed information about a currency");
    assert_eq!(handler.get_option_kind(), CommandOptionType::SubCommand);
    assert_eq!(handler.parse_options(&vec![text_option("code", "GMK")]), Ok(String::from("GMK")));
    assert_eq!(handler.parse_options(&Vec::new()), Err(String::from("Couldn't get code from options")));
    assert_eq!(handler.parse_options(&vec![number_option("code", 1)]), Err(String::from("Couldn't get code from options")));
    let data = command(vec![group("view", vec![text_option("code", "GMK")])]);
    assert_eq!(handler.handle_application_command(&data), Ok(String::from("GMK")));
    assert_eq!(
        handler.handle_application_command(&command(vec![group("view", Vec::new())])).unwrap_err(),
        "Couldn't get code from options"
    );
    assert_eq!(
        handler.handle_application_command(&command(Vec::new())).unwrap_err(),
        "Error while parsing options: \"Couldn't get subcommand data: indirection layer 1\""
    );
    let options = handler.register();
    assert_eq!(option_names(&options), vec!["code"]);
    assert!(options[0].required);
    assert_eq!(options[0].min_length, None);
    assert_eq!(options[0].description, "Three-letter currency code to view");
}

#[test]
fn view_response_with_and_without_a_record() {
    let record = RecordData::new(17, RecordDate { year: 2023, month: 6, day: 1 }, 3, Value::of(1, 4), Value::of(1, 4));
    let response = ViewHandler::view_response(&gold(), "0.250", Some(&record));
    assert!(!response.is_interactive());
    assert!(!response.is_ephemeral());
    assert_eq!(response.get_text(), "");
    let embed = response.get_embed().as_ref().unwrap();
    assert_eq!(embed.title.as_deref(), Some("Gold Mark"));
    assert_eq!(
        embed.description.as_deref(),
        Some("> Nation/State: _Goldland_\n> Reserves: `250 ingots`\n> Circulation: `1000 GMK`\n> Value: `0.250 ingot / GMK`")
    );
    assert_eq!(embed.image.as_deref(), Some("https://economist-image-server.shuttleapp.rs/00003/00017"));

    let response = ViewHandler::view_response(&gold(), "0.250", None);
    let embed = response.get_embed().as_ref().unwrap();
    assert_eq!(embed.title.as_deref(), Some("Gold Mark"));
    assert_eq!(
        embed.description.as_deref(),
        Some("> Nation/State: _Goldland_\n> Reserves: `250 ingots`\n> Circulation: `1000 GMK`\n> Value: `0.250 ingot / GMK`\n```ansi\n\u{001b}[1;33mWarning:\u{001b}[0m No past records available for this currency```")
    );
    assert_eq!(embed.image, None);
}
