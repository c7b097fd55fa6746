use economist_bot::commands::meta::{bot_version, BuildInfo};
use economist_bot::commands::{meta, ping, version};
use economist_bot::discord::builder::{
    CommandOptionType, CreateApplicationCommand, CreateApplicationCommandOption,
    CreateComponents, CreateEmbed,
};
use economist_bot::discord::interaction::{ApplicationCommandInteraction, CommandDataOption, User};
use economist_bot::dispatch::{
    currency_command, delivery, failed_command, failed_interaction, handler_named,
    handler_option, route_command, route_component, route_modal, unhandled_command,
    unhandled_interaction, CommandRoute, Delivery, HandlerKind,
};
use economist_bot::types::WorkerMessage;
use economist_bot::CommandResponseObject;

fn subcommand(name: &str) -> CommandDataOption {
    CommandDataOption { name: String::from(name), resolved: None, options: Vec::new() }
}

fn sent(name: &str, options: Vec<CommandDataOption>) -> ApplicationCommandInteraction {
    ApplicationCommandInteraction {
        name: String::from(name),
        options,
        user: User { id: 7, name: String::from("bob") },
    }
}

fn build() -> BuildInfo {
    BuildInfo {
        source_version: String::from("v1.2.3-4-gabcdef"),
        git_version: Some(String::from("v1.2.3")),
        pkg_version: String::from("0.9.0"),
        built_time_utc: String::from("Thu, 01 Jun 2023 12:00:00 +0000"),
        target: String::from("x86_64-unknown-linux-gnu"),
        host: String::from("aarch64-apple-darwin"),
        rustc: String::from("rustc 1.70.0"),
        os: String::from("linux"),
        cfg_env: String::from("gnu"),
    }
}

#[test]
fn commands_are_routed_by_their_first_option() {
    for (name, kind) in [
        ("circulation", HandlerKind::Circulation),
        ("reserve", HandlerKind::Reserve),
        ("delete", HandlerKind::Delete),
        ("database", HandlerKind::Database),
        ("list", HandlerKind::List),
        ("view", HandlerKind::View),
        ("create", HandlerKind::Create),
        ("modify", HandlerKind::Modify),
        ("records", HandlerKind::Records),
    ] {
        assert_eq!(handler_named(name), Some(kind));
        assert_eq!(route_command(&sent("currency", vec![subcommand(name)])), CommandRoute::Handler(kind));
        assert_eq!(
            route_command(&sent("currency", vec![subcommand(name), subcommand("list")])),
            CommandRoute::Handler(kind)
        );
    }
    assert_eq!(handler_named("boilerplate"), None);
    assert_eq!(handler_named(""), None);
    assert_eq!(route_command(&sent("currency", vec![subcommand("unknown")])), CommandRoute::Unhandled);
    assert_eq!(route_command(&sent("currency", Vec::new())), CommandRoute::Unhandled);
    assert_eq!(route_command(&sent("economist", Vec::new())), CommandRoute::Meta);
    assert_eq!(route_command(&sent("economist", vec![subcommand("list")])), CommandRoute::Meta);
}

#[test]
fn buttons_and_modals_are_routed_by_their_identifier() {
    assert_eq!(route_component("circulation-transaction-confirm"), Some(HandlerKind::Circulation));
    assert_eq!(route_component("circulation-transaction-cancel"), Some(HandlerKind::Circulation));
    assert_eq!(route_component("reserve-transaction-confirm"), Some(HandlerKind::Reserve));
    assert_eq!(route_component("reserve-transaction-cancel"), Some(HandlerKind::Reserve));
    assert_eq!(route_component("delete-confirm"), Some(HandlerKind::Delete));
    assert_eq!(route_component("delete-cancel"), Some(HandlerKind::Delete));
    assert_eq!(route_component("database-password-modal"), None);
    assert_eq!(route_component(""), None);
    assert_eq!(route_modal("recreate-database-confirm"), Some(HandlerKind::Database));
    assert_eq!(route_modal("recreate-database-cancel"), Some(HandlerKind::Database));
    assert_eq!(route_modal("database-password-modal"), Some(HandlerKind::Database));
    assert_eq!(route_modal("delete-confirm"), None);
}

#[test]
fn answers_when_nobody_answers() {
    let response = unhandled_command();
    assert_eq!(response.get_text(), "Content unavailable: no response handler registered for command!");
    assert!(!response.is_ephemeral());
    let response = unhandled_interaction();
    assert_eq!(
        response.get_text(),
        "Economist Bot encountered an error processing a command: \n`Got no response from interaction response handler`"
    );
    assert!(response.is_ephemeral());
}

#[test]
fn failures_are_shown_in_debug_form() {
    let response = failed_command("plain");
    assert_eq!(
        response.get_text(),
        "Economist Bot encountered an error processing a command: \n`Error responding to application command: \"plain\"`"
    );
    assert!(response.is_ephemeral());
    let tricky = "with \"quotes\", a \\ and\na line break";
    let response = failed_command(tricky);
    assert_eq!(
        response.get_text(),
        format!(
            "Economist Bot encountered an error processing a command: \n`{}`",
            format!("Error responding to application command: {:?}", tricky)
        )
    );
    assert!(response.get_text().contains("\\\"quotes\\\""));
    assert!(response.get_text().contains("\\n"));
    let response = failed_interaction(tricky);
    assert_eq!(
        response.get_text(),
        format!("Economist Bot encountered an error processing a command: \n`{:?}`", tricky)
    );
    let response = failed_interaction("x");
    assert_eq!(response.get_text(), "Economist Bot encountered an error processing a command: \n`\"x\"`");
}

#[test]
fn delivery_of_each_kind_of_answer() {
    assert_eq!(delivery(&CommandResponseObject::text("hello")), Delivery::Text);
    assert_eq!(delivery(&CommandResponseObject::error("oops")), Delivery::Text);
    assert_eq!(delivery(&CommandResponseObject::interactive(CreateComponents::new(), "pick", true)), Delivery::Interactive);
    assert_eq!(delivery(&CommandResponseObject::interactive_only(CreateComponents::new(), false)), Delivery::Interactive);
    assert_eq!(
        delivery(&CommandResponseObject::interactive_with_feedback(CreateComponents::new(), "f", "d", true)),
        Delivery::Interactive
    );
    assert_eq!(
        delivery(&CommandResponseObject::modal(CreateComponents::new(), String::from("id"))),
        Delivery::Modal
    );
    let embed = CreateEmbed { title: None, description: None, image: None };
    assert_eq!(delivery(&CommandResponseObject::embed(embed)), Delivery::Embed);
}

#[test]
fn response_object_constructors() {
    let r = CommandResponseObject::interactive(CreateComponents::new(), "prompt", true);
    assert!(r.is_interactive() && r.is_ephemeral() && !r.is_modal());
    assert_eq!(r.get_text(), "prompt");
    assert_eq!(r.get_feedback(), "");
    assert!(r.get_embed().is_none());
    let r = CommandResponseObject::interactive(CreateComponents::new(), "prompt", false);
    assert!(!r.is_ephemeral());

    let r = CommandResponseObject::interactive_only(CreateComponents::new(), true);
    assert!(r.is_interactive() && r.is_ephemeral() && !r.is_modal());
    assert_eq!(r.get_text(), "");

    let r = CommandResponseObject::modal(CreateComponents::new(), String::from("my-modal"));
    assert!(r.is_interactive() && r.is_ephemeral() && r.is_modal());
    assert_eq!(r.get_text(), "my-modal");

    let r = CommandResponseObject::interactive_with_feedback(CreateComponents::new(), "feedback", "display", false);
    assert!(r.is_interactive() && !r.is_ephemeral() && !r.is_modal());
    assert_eq!(r.get_text(), "display");
    assert_eq!(r.get_feedback(), "feedback");

    let r = CommandResponseObject::text("text");
    assert!(!r.is_interactive() && !r.is_ephemeral() && !r.is_modal());
    assert_eq!(r.get_text(), "text");
    assert_eq!(r.get_feedback(), "");

    let embed = CreateEmbed { title: Some(String::from("t")), description: None, image: Some(String::from("i")) };
    let r = CommandResponseObject::embed(embed);
    assert!(!r.is_interactive() && !r.is_ephemeral() && !r.is_modal());
    assert_eq!(r.get_text(), "");
    assert_eq!(r.get_embed().as_ref().unwrap().title.as_deref(), Some("t"));
    assert_eq!(r.get_embed().as_ref().unwrap().image.as_deref(), Some("i"));

    let r = CommandResponseObject::error("bad thing");
    assert!(!r.is_interactive() && r.is_ephemeral() && !r.is_modal());
    assert_eq!(r.get_text(), "Economist Bot encountered an error processing a command: \n`bad thing`");
}

#[test]
fn response_components_can_be_changed_in_place() {
    let mut r = CommandResponseObject::interactive(CreateComponents::new(), "prompt", true);
    assert_eq!(r.get_interactive_data().rows.len(), 0);
    let replacement = economist_bot::handlers::confirm_cancel(
        economist_bot::discord::builder::ButtonStyle::Primary,
        "yes",
        economist_bot::discord::builder::ButtonStyle::Danger,
        "no",
    );
    *r.get_interactive_data() = replacement;
    assert_eq!(r.get_interactive_data().rows.len(), 1);
    assert_eq!(r.get_interactive_data().rows[0].components.len(), 2);
    assert_eq!(r.get_text(), "prompt");
}

#[test]
fn ping_command() {
    let mut command = CreateApplicationCommand::new("", "");
    ping::register(&mut command);
    assert_eq!(command.name, "ping");
    assert_eq!(command.description, "A simple ping response (global slash command version)");
    assert_eq!(command.options.len(), 0);
    assert_eq!(ping::run(&sent("ping", Vec::new())), "Hello there, bob");
}

#[test]
fn version_command() {
    let mut command = CreateApplicationCommand::new("", "");
    version::register(&mut command);
    assert_eq!(command.name, "version");
    assert_eq!(command.description, "Economist: Get version debug information");
    let response = version::run(&sent("version", Vec::new()), &build());
    assert_eq!(
        response.get_text(),
        "**Economist Bot**, written by @Starkiller645\nVersion `v1.2.3-4-gabcdef`\nrustc: `rustc 1.70.0`, on `linux`"
    );
    assert!(!response.is_interactive());
}

#[test]
fn meta_command_registers_its_subcommand() {
    let mut command = CreateApplicationCommand::new("", "");
    meta::register(&mut command);
    assert_eq!(command.name, "economist");
    assert_eq!(command.description, "Economist: Get version debug information");
    assert_eq!(command.options.len(), 1);
    assert_eq!(command.options[0].kind, Some(CommandOptionType::SubCommand));
    assert_eq!(command.options[0].name, "version");
    assert_eq!(command.options[0].description, "Get version and build debug information");
    assert_eq!(command.options[0].options.len(), 0);
}

#[test]
fn meta_command_reports_the_build() {
    let response = meta::run(&sent("economist", vec![subcommand("version")]), &build(), "dump");
    assert_eq!(
        response.get_text(),
        "**Economist Bot**, written by @Starkiller645\n> Version: **v1.2.3**\n> Build time: `Thu, 01 Jun 2023 12:00:00 +0000`\n> Target: `x86_64-unknown-linux-gnu`\n> Host: `aarch64-apple-darwin`\n> rustc: `rustc 1.70.0`, on `linux`, `gnu` toolchain"
    );
    assert!(!response.is_interactive());
    let response = meta::run(&sent("economist", vec![subcommand("other")]), &build(), "dump");
    assert_eq!(response.get_text(), "");
    assert!(!response.is_interactive());
    let response = meta::run(&sent("economist", Vec::new()), &build(), "the dump");
    assert_eq!(
        response.get_text(),
        "Error: Economist Bot encountered an error processing a command. A debug dump of the command interaction is below:\nthe dump"
    );
    assert!(response.is_interactive());
    assert!(!response.is_ephemeral());
}

#[test]
fn bot_version_prefers_a_release_tag() {
    let mut info = build();
    assert_eq!(bot_version(&info), "v1.2.3");
    info.git_version = Some(String::from("abcdef0"));
    assert_eq!(bot_version(&info), "0.9.0");
    info.git_version = Some(String::from("v2"));
    assert_eq!(bot_version(&info), "0.9.0");
    info.git_version = Some(String::from("1.2"));
    assert_eq!(bot_version(&info), "0.9.0");
    info.git_version = Some(String::from(".v"));
    assert_eq!(bot_version(&info), ".v");
    info.git_version = None;
    assert_eq!(bot_version(&info), "0.9.0");
}

#[test]
fn currency_command_lists_every_handler() {
    let command = currency_command();
    assert_eq!(command.name, "currency");
    assert_eq!(command.description, "Manage and view currencies and their circulation levels");
    let summary: Vec<(&str, Option<CommandOptionType>, usize)> =
        command.options.iter().map(|o| (o.name, o.kind, o.options.len())).collect();
    assert_eq!(
        summary,
        vec![
            ("circulation", Some(CommandOptionType::SubCommandGroup), 2),
            ("reserve", Some(CommandOptionType::SubCommandGroup), 2),
            ("delete", Some(CommandOptionType::SubCommand), 1),
            ("database", Some(CommandOptionType::SubCommandGroup), 1),
            ("list", Some(CommandOptionType::SubCommand), 2),
            ("view", Some(CommandOptionType::SubCommand), 1),
            ("create", Some(CommandOptionType::SubCommand), 5),
            ("modify", Some(CommandOptionType::SubCommandGroup), 3),
            ("records", Some(CommandOptionType::SubCommand), 2),
        ]
    );
    assert_eq!(command.options[0].description, "Manage circulation amounts of a currency");
    assert_eq!(command.options[8].description, "View past currency end-of-day records");
    assert_eq!(command.options[0].options[0].options.len(), 2);
}

#[test]
fn handler_option_and_builders() {
    let sub = CreateApplicationCommandOption::new(CommandOptionType::String, "code", "A code")
        .required()
        .length(3, 3)
        .choice("One", "one");
    assert_eq!(sub.kind, Some(CommandOptionType::String));
    assert!(sub.required);
    assert_eq!((sub.min_length, sub.max_length), (Some(3), Some(3)));
    assert_eq!(sub.choices.len(), 1);
    assert_eq!((sub.choices[0].name, sub.choices[0].value), ("One", "one"));
    let option = handler_option(CommandOptionType::SubCommand, "name", "description", vec![sub]);
    assert_eq!(option.kind, Some(CommandOptionType::SubCommand));
    assert_eq!(option.name, "name");
    assert_eq!(option.description, "description");
    assert!(!option.required);
    assert_eq!(option.options.len(), 1);
    assert_eq!(option.options[0].name, "code");
    let blank = CreateApplicationCommandOption::blank();
    assert_eq!(blank.kind, None);
    assert_eq!(blank.name, "");
    let nested = CreateApplicationCommandOption::new(CommandOptionType::SubCommand, "a", "b").sub_option(blank);
    assert_eq!(nested.options.len(), 1);
    let command = CreateApplicationCommand::new("c", "d").option(nested);
    assert_eq!(command.options.len(), 1);
    assert_eq!(command.options[0].name, "a");
}

#[test]
fn worker_message_is_halt() {
    assert_eq!(WorkerMessage::default(), WorkerMessage::Halt);
    assert!(matches!(WorkerMessage::Halt.clone(), WorkerMessage::Halt));
}
