//! Helpers shared by the command handlers and the workers.

pub mod text;

use vstd::prelude::*;
use vstd::string::StringExecFns;

use crate::discord::interaction::{ApplicationCommandInteraction, CommandDataOption};

verus! {

/// The options that a command's handler reads.
///
/// A command holds the chosen subcommand as its first option. Where that
/// subcommand's first option has options of its own, it is an action of a
/// subcommand group, and its options are the ones meant; otherwise the
/// subcommand's own options are. A command without a subcommand is an error.
pub open spec fn options_of(data: ApplicationCommandInteraction) -> Result<
    Seq<CommandDataOption>,
    Seq<char>,
> {
    if data.options@.len() == 0 {
        Err("Couldn't get subcommand data: indirection layer 1"@)
    } else {
        let command = data.options@[0];
        if command.options@.len() > 0 && command.options@[0].options@.len() > 0 {
            Ok(command.options@[0].options@)
        } else {
            Ok(command.options@)
        }
    }
}

/// The options that a command's handler reads.
pub fn get_options(data: &ApplicationCommandInteraction) -> (r: Result<
    &Vec<CommandDataOption>,
    String,
>)
    ensures
        r is Ok <==> options_of(*data) is Ok,
        r is Ok ==> r->Ok_0@ == options_of(*data)->Ok_0,
        r is Err ==> r->Err_0@ == options_of(*data)->Err_0,
{
    if data.options.len() == 0 {
        return Err(String::from_str("Couldn't get subcommand data: indirection layer 1"));
    }
    let command = &data.options[0];
    if command.options.len() > 0 && command.options[0].options.len() > 0 {
        Ok(&command.options[0].options)
    } else {
        Ok(&command.options)
    }
}

} // verus!
