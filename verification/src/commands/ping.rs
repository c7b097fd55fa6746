//! The `ping` command.

use vstd::prelude::*;
use vstd::string::StringExecFns;

use crate::discord::builder::{CommandTree, CreateApplicationCommand};
use crate::discord::interaction::ApplicationCommandInteraction;

verus! {

/// Describes the command to the chat service.
pub fn register(command: &mut CreateApplicationCommand)
    ensures
        final(command)@ == (CommandTree {
            name: "ping",
            description: "A simple ping response (global slash command version)",
            ..old(command)@
        }),
{
    command.name = "ping";
    command.description = "A simple ping response (global slash command version)";
}

/// The greeting for the member who sent the command.
pub fn run(data: &ApplicationCommandInteraction) -> (greeting: String)
    ensures
        greeting@ == "Hello there, "@ + data.user.name@,
{
    String::from_str("Hello there, ").concat(data.user.name.as_str())
}

} // verus!
