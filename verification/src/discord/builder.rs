//! What the bot sends to the chat service: the schema of its slash commands,
//! the components of its messages, and embeds.

use vstd::prelude::*;

verus! {

/// The kind of an option of a slash command.
#[derive(Debug, Clone, Copy, PartialEq, Eq, Structural)]
pub enum CommandOptionType {
    SubCommand,
    SubCommandGroup,
    String,
    Integer,
}

/// One of the values that a text option offers.
#[derive(Debug, Clone, Copy)]
pub struct Choice {
    pub name: &'static str,
    pub value: &'static str,
}

/// An option of a slash command, with the options below it.
#[derive(Debug)]
pub struct CreateApplicationCommandOption {
    pub kind: Option<CommandOptionType>,
    pub name: &'static str,
    pub description: &'static str,
    pub required: bool,
    pub min_length: Option<u16>,
    pub max_length: Option<u16>,
    pub choices: Vec<Choice>,
    pub options: Vec<CreateApplicationCommandOption>,
}

/// An option of a slash command as a tree of values.
pub struct OptionTree {
    pub kind: Option<CommandOptionType>,
    pub name: &'static str,
    pub description: &'static str,
    pub required: bool,
    pub min_length: Option<u16>,
    pub max_length: Option<u16>,
    pub choices: Seq<Choice>,
    pub options: Seq<OptionTree>,
}

impl OptionTree {
    /// An option of the given kind, name and description, not required,
    /// of any length, without choices or options below it.
    pub open spec fn new(kind: CommandOptionType, name: &'static str, description: &'static str)
        -> OptionTree {
        OptionTree {
            kind: Some(kind),
            name,
            description,
            required: false,
            min_length: None,
            max_length: None,
            choices: Seq::empty(),
            options: Seq::empty(),
        }
    }

    /// The option without a kind, name or description.
    pub open spec fn blank() -> OptionTree {
        OptionTree {
            kind: None,
            name: "",
            description: "",
            required: false,
            min_length: None,
            max_length: None,
            choices: Seq::empty(),
            options: Seq::empty(),
        }
    }

    /// The option, required.
    pub open spec fn required(self) -> OptionTree {
        OptionTree { required: true, ..self }
    }

    /// The option, taking texts of `min` to `max` characters.
    pub open spec fn length(self, min: u16, max: u16) -> OptionTree {
        OptionTree { min_length: Some(min), max_length: Some(max), ..self }
    }

    /// The option, offering one more value.
    pub open spec fn choice(self, name: &'static str, value: &'static str) -> OptionTree {
        OptionTree { choices: self.choices.push(Choice { name, value }), ..self }
    }

    /// The option, with one more option below it.
    pub open spec fn sub_option(self, option: OptionTree) -> OptionTree {
        OptionTree { options: self.options.push(option), ..self }
    }
}

/// The trees of a list of options.
pub open spec fn option_trees(options: Seq<CreateApplicationCommandOption>) -> Seq<OptionTree> {
    Seq::new(options.len(), |i: int| options[i]@)
}

impl CreateApplicationCommandOption {
    /// The option as a tree of values.
    pub open spec fn view(self) -> OptionTree
        decreases self,
    {
        OptionTree {
            kind: self.kind,
            name: self.name,
            description: self.description,
            required: self.required,
            min_length: self.min_length,
            max_length: self.max_length,
            choices: self.choices@,
            options: Seq::new(
                self.options@.len(),
                |i: int|
                    if 0 <= i < self.options@.len() {
                        self.options@[i]@
                    } else {
                        OptionTree::blank()
                    },
            ),
        }
    }

    /// An option of the given kind, name and description, not required,
    /// of any length, without choices or options below it.
    pub fn new(kind: CommandOptionType, name: &'static str, description: &'static str) -> (o:
        CreateApplicationCommandOption)
        ensures
            o@ == OptionTree::new(kind, name, description),
    {
        let o = CreateApplicationCommandOption {
            kind: Some(kind),
            name,
            description,
            required: false,
            min_length: None,
            max_length: None,
            choices: Vec::new(),
            options: Vec::new(),
        };
        assert(o@.options =~= Seq::empty());
        o
    }

    /// The option without a kind, name or description.
    pub fn blank() -> (o: CreateApplicationCommandOption)
        ensures
            o@ == OptionTree::blank(),
    {
        let o = CreateApplicationCommandOption {
            kind: None,
            name: "",
            description: "",
            required: false,
            min_length: None,
            max_length: None,
            choices: Vec::new(),
            options: Vec::new(),
        };
        assert(o@.options =~= Seq::empty());
        o
    }

    /// Makes the option required.
    pub fn required(self) -> (o: CreateApplicationCommandOption)
        ensures
            o@ == self@.required(),
    {
        let o = CreateApplicationCommandOption {
            kind: self.kind,
            name: self.name,
            description: self.description,
            required: true,
            min_length: self.min_length,
            max_length: self.max_length,
            choices: self.choices,
            options: self.options,
        };
        assert(o@.options =~= self@.options);
        o
    }

    /// Lets the option take texts of `min` to `max` characters.
    pub fn length(self, min: u16, max: u16) -> (o: CreateApplicationCommandOption)
        ensures
            o@ == self@.length(min, max),
    {
        let o = CreateApplicationCommandOption {
            kind: self.kind,
            name: self.name,
            description: self.description,
            required: self.required,
            min_length: Some(min),
            max_length: Some(max),
            choices: self.choices,
            options: self.options,
        };
        assert(o@.options =~= self@.options);
        o
    }

    /// Offers one more value.
    pub fn choice(self, name: &'static str, value: &'static str) -> (o:
        CreateApplicationCommandOption)
        ensures
            o@ == self@.choice(name, value),
    {
        let mut choices = self.choices;
        choices.push(Choice { name, value });
        let o = CreateApplicationCommandOption {
            kind: self.kind,
            name: self.name,
            description: self.description,
            required: self.required,
            min_length: self.min_length,
            max_length: self.max_length,
            choices,
            options: self.options,
        };
        assert(o@.options =~= self@.options);
        o
    }

    /// Puts one more option below this one.
    pub fn sub_option(self, option: CreateApplicationCommandOption) -> (o:
        CreateApplicationCommandOption)
        ensures
            o@ == self@.sub_option(option@),
    {
        let mut options = self.options;
        options.push(option);
        let o = CreateApplicationCommandOption {
            kind: self.kind,
            name: self.name,
            description: self.description,
            required: self.required,
            min_length: self.min_length,
            max_length: self.max_length,
            choices: self.choices,
            options,
        };
        assert(o@.options =~= self@.options.push(option@));
        o
    }
}

/// A slash command: its name, its description and its options.
#[derive(Debug)]
pub struct CreateApplicationCommand {
    pub name: &'static str,
    pub description: &'static str,
    pub options: Vec<CreateApplicationCommandOption>,
}

/// A slash command as a tree of values.
pub struct CommandTree {
    pub name: &'static str,
    pub description: &'static str,
    pub options: Seq<OptionTree>,
}

impl CreateApplicationCommand {
    /// The command as a tree of values.
    pub open spec fn view(self) -> CommandTree {
        CommandTree {
            name: self.name,
            description: self.description,
            options: option_trees(self.options@),
        }
    }

    /// A command without options.
    pub fn new(name: &'static str, description: &'static str) -> (c: CreateApplicationCommand)
        ensures
            c@ == (CommandTree { name, description, options: Seq::empty() }),
    {
        let c = CreateApplicationCommand { name, description, options: Vec::new() };
        assert(c@.options =~= Seq::empty());
        c
    }

    /// Gives the command one more option.
    pub fn option(self, option: CreateApplicationCommandOption) -> (c: CreateApplicationCommand)
        ensures
            c@ == (CommandTree { options: self@.options.push(option@), ..self@ }),
    {
        let mut options = self.options;
        options.push(option);
        let c = CreateApplicationCommand {
            name: self.name,
            description: self.description,
            options,
        };
        assert(c@.options =~= self@.options.push(option@));
        c
    }
}

/// The colour and weight of a button.
#[derive(Debug, Clone, Copy, PartialEq, Eq, Structural)]
pub enum ButtonStyle {
    Primary,
    Secondary,
    Danger,
}

/// A button on a message.
#[derive(Debug, Clone, Copy)]
pub struct CreateButton {
    pub label: &'static str,
    pub style: ButtonStyle,
    pub custom_id: &'static str,
}

/// How large a text field of a modal is.
#[derive(Debug, Clone, Copy, PartialEq, Eq, Structural)]
pub enum InputTextStyle {
    Short,
    Paragraph,
}

/// A text field of a modal.
#[derive(Debug, Clone, Copy)]
pub struct CreateInputText {
    pub custom_id: &'static str,
    pub label: &'static str,
    pub placeholder: &'static str,
    pub required: bool,
    pub style: InputTextStyle,
}

/// One component of a row.
#[derive(Debug, Clone, Copy)]
pub enum CreateComponent {
    Button(CreateButton),
    InputText(CreateInputText),
}

/// A row of components.
#[derive(Debug)]
pub struct CreateActionRow {
    pub components: Vec<CreateComponent>,
}

/// The components of a message or of a modal: rows of buttons or of text
/// fields.
#[derive(Debug)]
pub struct CreateComponents {
    pub rows: Vec<CreateActionRow>,
}

impl CreateComponents {
    /// The rows, each as the sequence of its components.
    pub open spec fn view(self) -> Seq<Seq<CreateComponent>> {
        Seq::new(self.rows@.len(), |i: int| self.rows@[i].components@)
    }

    /// No components.
    pub fn new() -> (c: CreateComponents)
        ensures
            c@ == Seq::<Seq<CreateComponent>>::empty(),
    {
        let c = CreateComponents { rows: Vec::new() };
        assert(c@ =~= Seq::<Seq<CreateComponent>>::empty());
        c
    }

    /// One row of two buttons.
    pub fn two_buttons(first: CreateButton, second: CreateButton) -> (c: CreateComponents)
        ensures
            c@ == seq![seq![CreateComponent::Button(first), CreateComponent::Button(second)]],
    {
        let mut components: Vec<CreateComponent> = Vec::new();
        components.push(CreateComponent::Button(first));
        components.push(CreateComponent::Button(second));
        let mut rows: Vec<CreateActionRow> = Vec::new();
        rows.push(CreateActionRow { components });
        let c = CreateComponents { rows };
        assert(c@[0] =~= seq![CreateComponent::Button(first), CreateComponent::Button(second)]);
        assert(c@ =~= seq![seq![CreateComponent::Button(first), CreateComponent::Button(second)]]);
        c
    }

    /// One row of one text field.
    pub fn one_input(input: CreateInputText) -> (c: CreateComponents)
        ensures
            c@ == seq![seq![CreateComponent::InputText(input)]],
    {
        let mut components: Vec<CreateComponent> = Vec::new();
        components.push(CreateComponent::InputText(input));
        let mut rows: Vec<CreateActionRow> = Vec::new();
        rows.push(CreateActionRow { components });
        let c = CreateComponents { rows };
        assert(c@[0] =~= seq![CreateComponent::InputText(input)]);
        assert(c@ =~= seq![seq![CreateComponent::InputText(input)]]);
        c
    }
}

/// An embed: a framed part of a message with a title, a text and a picture.
#[derive(Debug)]
pub struct CreateEmbed {
    pub title: Option<String>,
    pub description: Option<String>,
    pub image: Option<String>,
}

/// An embed, with texts as sequences of characters.
pub struct EmbedView {
    pub title: Option<Seq<char>>,
    pub description: Option<Seq<char>>,
    pub image: Option<Seq<char>>,
}

/// The text of an optional string.
pub open spec fn text_of(s: Option<String>) -> Option<Seq<char>> {
    match s {
        Some(s) => Some(s@),
        None => None,
    }
}

impl CreateEmbed {
    /// The embed, with texts as sequences of characters.
    pub open spec fn view(self) -> EmbedView {
        EmbedView {
            title: text_of(self.title),
            description: text_of(self.description),
            image: text_of(self.image),
        }
    }
}

} // verus!
