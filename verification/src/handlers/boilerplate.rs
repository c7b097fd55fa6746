//! A handler that does nothing: the pattern that the others follow.

use vstd::prelude::*;

use crate::discord::builder::{CommandOptionType, CreateApplicationCommandOption};
use crate::discord::interaction::{ApplicationCommandInteraction, MessageComponentInteraction};
use crate::response::{CommandResponseObject, ResponseView};

verus! {

/// A handler without a subcommand of its own.
#[derive(Debug)]
pub struct BoilerplateHandler {}

/// The answer that says nothing.
pub open spec fn empty_answer() -> ResponseView {
    ResponseView {
        interactive: false,
        interactive_data: None,
        data: Some(Seq::empty()),
        feedback: None,
        embed: None,
        ephemeral: false,
        modal: false,
    }
}

/// The answer that says nothing.
pub fn empty_response() -> (r: CommandResponseObject)
    ensures
        r@ == empty_answer(),
{
    proof {
        reveal_strlit("");
    }
    let r = CommandResponseObject::text("");
    assert(r@.data->0 =~= Seq::<char>::empty());
    r
}

impl BoilerplateHandler {
    /// The handler, which keeps nothing in mind.
    pub fn new() -> (h: Self)
        ensures
            h == (BoilerplateHandler {  }),
    {
        BoilerplateHandler {  }
    }

    /// Answers every command with the empty text.
    pub fn handle_application_command(&mut self, data: &ApplicationCommandInteraction) -> (r:
        Result<CommandResponseObject, String>)
        ensures
            r is Ok,
            r->Ok_0@ == empty_answer(),
    {
        Ok(empty_response())
    }

    /// Answers every button with the empty text.
    pub fn handle_interaction_response(&self, data: &MessageComponentInteraction) -> (r: Result<
        CommandResponseObject,
        String,
    >)
        ensures
            r is Ok,
            r->Ok_0@ == empty_answer(),
    {
        Ok(empty_response())
    }

    /// The name of the handler's subcommand.
    pub fn get_name(&self) -> (name: &'static str)
        ensures
            name == "boilerplate",
    {
        "boilerplate"
    }

    /// What the handler's subcommand is for, in a few words.
    pub fn get_description(&self) -> (description: &'static str)
        ensures
            description == "This is a boilerplate for implementing ApplicationCommandHandler",
    {
        "This is a boilerplate for implementing ApplicationCommandHandler"
    }

    /// Whether the subcommand stands alone or groups actions.
    pub fn get_option_kind(&self) -> (kind: CommandOptionType)
        ensures
            kind == CommandOptionType::SubCommandGroup,
    {
        CommandOptionType::SubCommandGroup
    }

    /// The handler has no options.
    pub fn register(&self) -> (options: Vec<CreateApplicationCommandOption>)
        ensures
            options@.len() == 0,
    {
        Vec::new()
    }

    /// The handler has no buttons.
    pub fn get_pattern(&self) -> (pattern: Vec<&'static str>)
        ensures
            pattern@.len() == 0,
    {
        Vec::new()
    }
}

} // verus!
