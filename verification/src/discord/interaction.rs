//! What arrives from the chat service: slash commands with their options,
//! presses of message components, and submitted modals.

use vstd::prelude::*;
use vstd::string::StringExecFns;

use crate::utils::text::{digits, digits_text, same_text};

verus! {

/// A member of the guild.
#[derive(Debug)]
pub struct User {
    pub id: u64,
    pub name: String,
}

impl Clone for User {
    fn clone(&self) -> (u: Self)
        ensures
            u == *self,
    {
        User { id: self.id, name: self.name.clone() }
    }
}

impl Default for User {
    fn default() -> (u: Self)
        ensures
            u.id == 0,
            u.name@ == Seq::<char>::empty(),
    {
        User { id: 0, name: String::new() }
    }
}

impl User {
    /// The text that the chat service shows as a mention of the user.
    pub open spec fn mention_spec(self) -> Seq<char> {
        "<@"@ + digits(self.id as nat) + ">"@
    }

    /// The text that the chat service shows as a mention of the user.
    pub fn mention(&self) -> (s: String)
        ensures
            s@ == self.mention_spec(),
    {
        String::from_str("<@").concat(digits_text(self.id as u128).as_str()).concat(">")
    }
}

/// The value that the chat service resolved for an option.
#[derive(Debug)]
pub enum CommandDataOptionValue {
    String(String),
    Integer(i64),
    Boolean(bool),
    /// A value of a kind that no command of the bot takes.
    Other,
}

/// An option of a slash command: a value, or a subcommand with options of
/// its own.
#[derive(Debug)]
pub struct CommandDataOption {
    pub name: String,
    pub resolved: Option<CommandDataOptionValue>,
    pub options: Vec<CommandDataOption>,
}

impl CommandDataOption {
    /// The option's text, where it was given one.
    pub open spec fn string_value(self) -> Option<Seq<char>> {
        match self.resolved {
            Some(CommandDataOptionValue::String(s)) => Some(s@),
            _ => None,
        }
    }

    /// The option's number, where it was given one.
    pub open spec fn integer_value(self) -> Option<i64> {
        match self.resolved {
            Some(CommandDataOptionValue::Integer(n)) => Some(n),
            _ => None,
        }
    }

    /// Whether the option is called `name`.
    pub fn is_named(&self, name: &str) -> (b: bool)
        ensures
            b == (self.name@ == name@),
    {
        same_text(self.name.as_str(), name)
    }

    /// The option's text, where it was given one.
    pub fn as_string(&self) -> (s: Option<String>)
        ensures
            s is Some <==> self.string_value() is Some,
            s is Some ==> s->0@ == self.string_value()->0,
    {
        match &self.resolved {
            Some(CommandDataOptionValue::String(s)) => Some(s.clone()),
            _ => None,
        }
    }

    /// The option's number, where it was given one.
    pub fn as_integer(&self) -> (n: Option<i64>)
        ensures
            n == self.integer_value(),
    {
        match &self.resolved {
            Some(CommandDataOptionValue::Integer(n)) => Some(*n),
            _ => None,
        }
    }
}

/// The text of the last option called `name` that was given a text.
pub open spec fn last_string(options: Seq<CommandDataOption>, name: Seq<char>) -> Option<Seq<char>>
    decreases options.len(),
{
    if options.len() == 0 {
        None
    } else if options.last().name@ == name && options.last().string_value() is Some {
        options.last().string_value()
    } else {
        last_string(options.drop_last(), name)
    }
}

/// The number of the last option called `name` that was given a number.
pub open spec fn last_integer(options: Seq<CommandDataOption>, name: Seq<char>) -> Option<i64>
    decreases options.len(),
{
    if options.len() == 0 {
        None
    } else if options.last().name@ == name && options.last().integer_value() is Some {
        options.last().integer_value()
    } else {
        last_integer(options.drop_last(), name)
    }
}

/// The number of the last option called `name` that was given a number of
/// at least `least`.
pub open spec fn last_integer_from(options: Seq<CommandDataOption>, name: Seq<char>, least: int)
    -> Option<i64>
    decreases options.len(),
{
    if options.len() == 0 {
        None
    } else if options.last().name@ == name && options.last().integer_value() is Some
        && options.last().integer_value()->0 >= least {
        options.last().integer_value()
    } else {
        last_integer_from(options.drop_last(), name, least)
    }
}

/// Whether an option called `name` was given a number below `least`.
pub open spec fn has_integer_below(options: Seq<CommandDataOption>, name: Seq<char>, least: int)
    -> bool {
    exists|i: int|
        0 <= i < options.len() && (#[trigger] options[i]).name@ == name
            && options[i].integer_value() is Some && options[i].integer_value()->0 < least
}

/// Whether an option is called `name` and was given a text.
pub open spec fn gives_string(option: CommandDataOption, name: Seq<char>) -> bool {
    option.name@ == name && option.string_value() is Some
}

/// Whether an option is called `name` and was given a number of at least
/// `least`.
pub open spec fn gives_integer_from(option: CommandDataOption, name: Seq<char>, least: int)
    -> bool {
    option.name@ == name && option.integer_value() is Some && option.integer_value()->0 >= least
}

/// What `last_string` finds, whatever the order of the options: nothing
/// where no option of the name was given a text, and else the text of the
/// option of the name behind which no other was given one.
pub proof fn law_last_string(options: Seq<CommandDataOption>, name: Seq<char>)
    ensures
        last_string(options, name) is None <==> forall|i: int|
            0 <= i < options.len() ==> !gives_string(#[trigger] options[i], name),
        last_string(options, name) is Some ==> exists|i: int|
            0 <= i < options.len() && gives_string(#[trigger] options[i], name)
                && options[i].string_value() == last_string(options, name) && forall|j: int|
                i < j < options.len() ==> !gives_string(#[trigger] options[j], name),
    decreases options.len(),
{
    if options.len() > 0 {
        let before = options.drop_last();
        let last = options.len() - 1;
        law_last_string(before, name);
        assert(forall|i: int| 0 <= i < before.len() ==> before[i] == options[i]);
        if gives_string(options[last], name) {
            assert(options.last() == options[last]);
        } else if last_string(before, name) is Some {
            let i = choose|i: int|
                0 <= i < before.len() && gives_string(#[trigger] before[i], name)
                    && before[i].string_value() == last_string(before, name) && forall|j: int|
                    i < j < before.len() ==> !gives_string(#[trigger] before[j], name);
            assert(gives_string(options[i], name));
            assert forall|j: int| i < j < options.len() implies !gives_string(
                #[trigger] options[j],
                name,
            ) by {
                if j < before.len() {
                    assert(!gives_string(before[j], name));
                }
            }
        } else {
            assert forall|i: int| 0 <= i < options.len() implies !gives_string(
                #[trigger] options[i],
                name,
            ) by {
                if i < before.len() {
                    assert(!gives_string(before[i], name));
                }
            }
        }
    }
}

/// What `last_integer_from` finds, whatever the order of the options:
/// nothing where no option of the name was given a number of at least
/// `least`, and else the number of the option of that kind behind which
/// there is no other.
pub proof fn law_last_integer_from(options: Seq<CommandDataOption>, name: Seq<char>, least: int)
    ensures
        last_integer_from(options, name, least) is None <==> forall|i: int|
            0 <= i < options.len() ==> !gives_integer_from(#[trigger] options[i], name, least),
        last_integer_from(options, name, least) is Some ==> exists|i: int|
            0 <= i < options.len() && gives_integer_from(#[trigger] options[i], name, least)
                && options[i].integer_value() == last_integer_from(options, name, least)
                && forall|j: int|
                i < j < options.len() ==> !gives_integer_from(#[trigger] options[j], name, least),
    decreases options.len(),
{
    if options.len() > 0 {
        let before = options.drop_last();
        let last = options.len() - 1;
        law_last_integer_from(before, name, least);
        assert(forall|i: int| 0 <= i < before.len() ==> before[i] == options[i]);
        if gives_integer_from(options[last], name, least) {
            assert(options.last() == options[last]);
        } else if last_integer_from(before, name, least) is Some {
            let i = choose|i: int|
                0 <= i < before.len() && gives_integer_from(#[trigger] before[i], name, least)
                    && before[i].integer_value() == last_integer_from(before, name, least)
                    && forall|j: int|
                    i < j < before.len() ==> !gives_integer_from(#[trigger] before[j], name, least);
            assert(gives_integer_from(options[i], name, least));
            assert forall|j: int| i < j < options.len() implies !gives_integer_from(
                #[trigger] options[j],
                name,
                least,
            ) by {
                if j < before.len() {
                    assert(!gives_integer_from(before[j], name, least));
                }
            }
        } else {
            assert forall|i: int| 0 <= i < options.len() implies !gives_integer_from(
                #[trigger] options[i],
                name,
                least,
            ) by {
                if i < before.len() {
                    assert(!gives_integer_from(before[i], name, least));
                }
            }
        }
    }
}

/// `last_integer` is `last_integer_from` with the least number there is.
pub proof fn law_last_integer(options: Seq<CommandDataOption>, name: Seq<char>)
    ensures
        last_integer(options, name) == last_integer_from(options, name, i64::MIN as int),
{
    lemma_last_integer_from_least(options, name);
}

/// The text of the last option called `name` that was given a text.
pub fn find_string(options: &Vec<CommandDataOption>, name: &str) -> (r: Option<String>)
    ensures
        r is Some <==> last_string(options@, name@) is Some,
        r is Some ==> r->0@ == last_string(options@, name@)->0,
{
    let mut found: Option<String> = None;
    let mut i: usize = 0;
    assert(options@.take(0) =~= Seq::<CommandDataOption>::empty());
    while i < options.len()
        invariant
            i <= options.len(),
            found is Some <==> last_string(options@.take(i as int), name@) is Some,
            found is Some ==> found->0@ == last_string(options@.take(i as int), name@)->0,
        decreases options.len() - i,
    {
        proof {
            let next = options@.take(i + 1);
            assert(next.drop_last() =~= options@.take(i as int));
            assert(next.last() == options@[i as int]);
        }
        if options[i].is_named(name) {
            match options[i].as_string() {
                Some(s) => {
                    found = Some(s);
                },
                None => {},
            }
        }
        i = i + 1;
    }
    assert(options@.take(options.len() as int) =~= options@);
    found
}

/// The number of the last option called `name` that was given a number of
/// at least `least`.
pub fn find_integer_from(options: &Vec<CommandDataOption>, name: &str, least: i64) -> (r: Option<
    i64,
>)
    ensures
        r == last_integer_from(options@, name@, least as int),
{
    let mut found: Option<i64> = None;
    let mut i: usize = 0;
    assert(options@.take(0) =~= Seq::<CommandDataOption>::empty());
    while i < options.len()
        invariant
            i <= options.len(),
            found == last_integer_from(options@.take(i as int), name@, least as int),
        decreases options.len() - i,
    {
        proof {
            let next = options@.take(i + 1);
            assert(next.drop_last() =~= options@.take(i as int));
            assert(next.last() == options@[i as int]);
        }
        if options[i].is_named(name) {
            match options[i].as_integer() {
                Some(n) => {
                    if n >= least {
                        found = Some(n);
                    }
                },
                None => {},
            }
        }
        i = i + 1;
    }
    assert(options@.take(options.len() as int) =~= options@);
    found
}

/// The number of the last option called `name` that was given a number.
pub fn find_integer(options: &Vec<CommandDataOption>, name: &str) -> (r: Option<i64>)
    ensures
        r == last_integer(options@, name@),
{
    let r = find_integer_from(options, name, i64::MIN);
    proof {
        lemma_last_integer_from_least(options@, name@);
    }
    r
}

/// Every number is at least the least one.
proof fn lemma_last_integer_from_least(options: Seq<CommandDataOption>, name: Seq<char>)
    ensures
        last_integer_from(options, name, i64::MIN as int) == last_integer(options, name),
    decreases options.len(),
{
    if options.len() > 0 {
        lemma_last_integer_from_least(options.drop_last(), name);
    }
}

/// Whether an option called `name` was given a number below `least`.
pub fn any_integer_below(options: &Vec<CommandDataOption>, name: &str, least: i64) -> (b: bool)
    ensures
        b == has_integer_below(options@, name@, least as int),
{
    let mut i: usize = 0;
    while i < options.len()
        invariant
            i <= options.len(),
            forall|k: int|
                0 <= k < i ==> !((#[trigger] options@[k]).name@ == name@
                    && options@[k].integer_value() is Some && options@[k].integer_value()->0
                    < least),
        decreases options.len() - i,
    {
        if options[i].is_named(name) {
            match options[i].as_integer() {
                Some(n) => {
                    if n < least {
                        return true;
                    }
                },
                None => {},
            }
        }
        i = i + 1;
    }
    false
}

/// A slash command as a member sent it.
#[derive(Debug)]
pub struct ApplicationCommandInteraction {
    /// The command's name.
    pub name: String,
    /// The command's options: the subcommand that was chosen.
    pub options: Vec<CommandDataOption>,
    /// The member who sent the command.
    pub user: User,
}

/// A press of a button on one of the bot's messages.
#[derive(Debug)]
pub struct MessageComponentInteraction {
    /// The identifier that the bot gave the button.
    pub custom_id: String,
    /// The member who pressed the button.
    pub user: User,
}

/// A field of a submitted modal.
#[derive(Debug)]
pub enum ActionRowComponent {
    /// A line of text and what the member typed into it.
    InputText { custom_id: String, value: String },
    /// A component of a kind that no modal of the bot holds.
    Other,
}

/// A row of fields of a submitted modal.
#[derive(Debug)]
pub struct ActionRow {
    pub components: Vec<ActionRowComponent>,
}

/// A modal as a member submitted it.
#[derive(Debug)]
pub struct ModalSubmitInteraction {
    /// The identifier that the bot gave the modal.
    pub custom_id: String,
    /// The member who submitted the modal.
    pub user: User,
    /// The modal's rows of fields.
    pub components: Vec<ActionRow>,
}

} // verus!
