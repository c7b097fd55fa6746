//! The `economist` command, which tells how the bot was built.

use vstd::prelude::*;
use vstd::string::StringExecFns;

use crate::discord::builder::{
    CommandOptionType, CommandTree, CreateApplicationCommand, CreateApplicationCommandOption,
    CreateComponents, OptionTree,
};
use crate::discord::interaction::ApplicationCommandInteraction;
use crate::response::{CommandResponseObject, ResponseView};
use crate::utils::text::{has_char, same_text};

verus! {

/// What is known of the build and of the machine it runs on.
#[derive(Debug)]
pub struct BuildInfo {
    /// The version that the source tree describes itself by.
    pub source_version: String,
    /// The version tag of the source tree, where it has one.
    pub git_version: Option<String>,
    /// The version of the package.
    pub pkg_version: String,
    /// When the bot was built.
    pub built_time_utc: String,
    /// The platform the bot was built for.
    pub target: String,
    /// The platform the bot was built on.
    pub host: String,
    /// The compiler's version.
    pub rustc: String,
    /// The operating system.
    pub os: String,
    /// The flavour of the toolchain's target, such as `gnu`.
    pub cfg_env: String,
}

/// Describes the command to the chat service.
pub fn register(command: &mut CreateApplicationCommand)
    ensures
        final(command)@ == (CommandTree {
            name: "economist",
            description: "Economist: Get version debug information",
            options: old(command)@.options.push(
                OptionTree::new(
                    CommandOptionType::SubCommand,
                    "version",
                    "Get version and build debug information",
                ),
            ),
        }),
{
    command.name = "economist";
    command.description = "Economist: Get version debug information";
    let option = CreateApplicationCommandOption::new(
        CommandOptionType::SubCommand,
        "version",
        "Get version and build debug information",
    );
    let ghost before = command.options@;
    command.options.push(option);
    assert(command@.options =~= old(command)@.options.push(option@));
}

/// Whether a version tag looks like a release: it holds a `v` and a dot.
pub open spec fn is_release_tag(tag: Seq<char>) -> bool {
    tag.contains('v') && tag.contains('.')
}

/// The version that the bot reports: the tag of the source tree where it
/// looks like a release, else the version of the package.
pub open spec fn bot_version_of(info: BuildInfo) -> Seq<char> {
    match info.git_version {
        Some(tag) => if is_release_tag(tag@) {
            tag@
        } else {
            info.pkg_version@
        },
        None => info.pkg_version@,
    }
}

/// The version that the bot reports.
pub fn bot_version(info: &BuildInfo) -> (v: &str)
    ensures
        v@ == bot_version_of(*info),
{
    match &info.git_version {
        Some(tag) => {
            if has_char(tag.as_str(), 'v') && has_char(tag.as_str(), '.') {
                tag.as_str()
            } else {
                info.pkg_version.as_str()
            }
        },
        None => info.pkg_version.as_str(),
    }
}

/// The text that tells how the bot was built.
pub open spec fn build_text(info: BuildInfo) -> Seq<char> {
    "**Economist Bot**, written by @Starkiller645\n> Version: **"@ + bot_version_of(info)
        + "**\n> Build time: `"@ + info.built_time_utc@ + "`\n> Target: `"@ + info.target@
        + "`\n> Host: `"@ + info.host@ + "`\n> rustc: `"@ + info.rustc@ + "`, on `"@ + info.os@
        + "`, `"@ + info.cfg_env@ + "` toolchain"@
}

/// The text that reports a command without a subcommand, with a dump of
/// the command.
pub open spec fn missing_subcommand_text(dump: Seq<char>) -> Seq<char> {
    "Error: Economist Bot encountered an error processing a command. A debug dump of the command interaction is below:\n"@
        + dump
}

/// What the command answers: for the subcommand `version` the build text,
/// for another subcommand the empty text, and without a subcommand a report
/// of the error.
pub open spec fn run_spec(data: ApplicationCommandInteraction, info: BuildInfo, dump: Seq<char>)
    -> ResponseView {
    if data.options@.len() == 0 {
        ResponseView {
            interactive: true,
            interactive_data: Some(Seq::empty()),
            data: Some(missing_subcommand_text(dump)),
            feedback: None,
            embed: None,
            ephemeral: false,
            modal: false,
        }
    } else {
        ResponseView {
            interactive: false,
            interactive_data: None,
            data: Some(
                if data.options@[0].name@ == "version"@ {
                    build_text(info)
                } else {
                    Seq::empty()
                },
            ),
            feedback: None,
            embed: None,
            ephemeral: false,
            modal: false,
        }
    }
}

/// Answers the command. `dump` is the text that shows the whole command,
/// for the report of a command without a subcommand.
pub fn run(data: &ApplicationCommandInteraction, info: &BuildInfo, dump: &str) -> (r:
    CommandResponseObject)
    ensures
        r@ == run_spec(*data, *info, dump@),
{
    if data.options.len() == 0 {
        let text = String::from_str(
            "Error: Economist Bot encountered an error processing a command. A debug dump of the command interaction is below:\n",
        ).concat(dump);
        return CommandResponseObject::interactive(CreateComponents::new(), text.as_str(), false);
    }
    if same_text(data.options[0].name.as_str(), "version") {
        let text = String::from_str(
            "**Economist Bot**, written by @Starkiller645\n> Version: **",
        ).concat(bot_version(info)).concat("**\n> Build time: `").concat(
            info.built_time_utc.as_str(),
        ).concat("`\n> Target: `").concat(info.target.as_str()).concat("`\n> Host: `").concat(
            info.host.as_str(),
        ).concat("`\n> rustc: `").concat(info.rustc.as_str()).concat("`, on `").concat(
            info.os.as_str(),
        ).concat("`, `").concat(info.cfg_env.as_str()).concat("` toolchain");
        CommandResponseObject::text(text.as_str())
    } else {
        proof {
            reveal_strlit("");
        }
        let r = CommandResponseObject::text("");
        assert(r@.data->0 =~= Seq::<char>::empty());
        assert(r@ == run_spec(*data, *info, dump@));
        r
    }
}

} // verus!
