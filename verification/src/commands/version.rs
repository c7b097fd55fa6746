//! The `version` command.

use vstd::prelude::*;
use vstd::string::StringExecFns;

use crate::commands::meta::BuildInfo;
use crate::discord::builder::{CommandTree, CreateApplicationCommand};
use crate::discord::interaction::ApplicationCommandInteraction;
use crate::response::{CommandResponseObject, ResponseView};

verus! {

/// Describes the command to the chat service.
pub fn register(command: &mut CreateApplicationCommand)
    ensures
        final(command)@ == (CommandTree {
            name: "version",
            description: "Economist: Get version debug information",
            ..old(command)@
        }),
{
    command.name = "version";
    command.description = "Economist: Get version debug information";
}

/// The text that tells the bot's version, the compiler's and the system.
pub open spec fn version_text(bot_version: Seq<char>, rustc: Seq<char>, os: Seq<char>) -> Seq<
    char,
> {
    "**Economist Bot**, written by @Starkiller645\nVersion `"@ + bot_version + "`\nrustc: `"@
        + rustc + "`, on `"@ + os + "`"@
}

/// Answers the command with the version found in the source tree.
pub fn run(_data: &ApplicationCommandInteraction, info: &BuildInfo) -> (r: CommandResponseObject)
    ensures
        r@ == (ResponseView {
            interactive: false,
            interactive_data: None,
            data: Some(version_text(info.source_version@, info.rustc@, info.os@)),
            feedback: None,
            embed: None,
            ephemeral: false,
            modal: false,
        }),
{
    let text = String::from_str(
        "**Economist Bot**, written by @Starkiller645\nVersion `",
    ).concat(info.source_version.as_str()).concat("`\nrustc: `").concat(
        info.rustc.as_str(),
    ).concat("`, on `").concat(info.os.as_str()).concat("`");
    CommandResponseObject::text(text.as_str())
}

} // verus!
