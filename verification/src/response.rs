//! What a handler answers to a command, a button press or a modal.

use vstd::prelude::*;
use vstd::string::StringExecFns;

use crate::discord::builder::{text_of, CreateComponent, CreateComponents, CreateEmbed, EmbedView};

verus! {

/// The answer to an interaction: a text, an embed, a message with
/// components, or a modal.
#[derive(Debug)]
pub struct CommandResponseObject {
    interactive: bool,
    interactive_data: Option<CreateComponents>,
    data: Option<String>,
    feedback: Option<String>,
    embed: Option<CreateEmbed>,
    ephemeral: bool,
    modal: bool,
}

/// An answer, with texts as sequences of characters.
pub struct ResponseView {
    /// Whether the answer carries components.
    pub interactive: bool,
    /// The components, row by row.
    pub interactive_data: Option<Seq<Seq<CreateComponent>>>,
    /// The text shown, or for a modal its identifier.
    pub data: Option<Seq<char>>,
    /// The text shown only to the member who caused the answer.
    pub feedback: Option<Seq<char>>,
    /// The embed.
    pub embed: Option<EmbedView>,
    /// Whether only the member who caused the answer sees it.
    pub ephemeral: bool,
    /// Whether the answer is a modal.
    pub modal: bool,
}

/// The text of an answer that reports the error `data`.
pub open spec fn error_text(data: Seq<char>) -> Seq<char> {
    "Economist Bot encountered an error processing a command: \n`"@ + data + "`"@
}

impl CommandResponseObject {
    /// The answer, with texts as sequences of characters.
    pub closed spec fn view(self) -> ResponseView {
        ResponseView {
            interactive: self.interactive,
            interactive_data: match self.interactive_data {
                Some(components) => Some(components@),
                None => None,
            },
            data: text_of(self.data),
            feedback: text_of(self.feedback),
            embed: match self.embed {
                Some(embed) => Some(embed@),
                None => None,
            },
            ephemeral: self.ephemeral,
            modal: self.modal,
        }
    }

    /// A message with components and a text.
    pub fn interactive(data: CreateComponents, prompt: &str, ephemeral: bool) -> (r: Self)
        ensures
            r@ == (ResponseView {
                interactive: true,
                interactive_data: Some(data@),
                data: Some(prompt@),
                feedback: None,
                embed: None,
                ephemeral,
                modal: false,
            }),
    {
        CommandResponseObject {
            interactive: true,
            interactive_data: Some(data),
            data: Some(String::from_str(prompt)),
            feedback: None,
            embed: None,
            ephemeral,
            modal: false,
        }
    }

    /// A message with components and no text.
    pub fn interactive_only(data: CreateComponents, ephemeral: bool) -> (r: Self)
        ensures
            r@ == (ResponseView {
                interactive: true,
                interactive_data: Some(data@),
                data: None,
                feedback: None,
                embed: None,
                ephemeral,
                modal: false,
            }),
    {
        CommandResponseObject {
            interactive: true,
            interactive_data: Some(data),
            data: None,
            feedback: None,
            embed: None,
            ephemeral,
            modal: false,
        }
    }

    /// A modal with the identifier `custom_id`.
    pub fn modal(data: CreateComponents, custom_id: String) -> (r: Self)
        ensures
            r@ == (ResponseView {
                interactive: true,
                interactive_data: Some(data@),
                data: Some(custom_id@),
                feedback: None,
                embed: None,
                ephemeral: true,
                modal: true,
            }),
    {
        CommandResponseObject {
            interactive: true,
            interactive_data: Some(data),
            data: Some(custom_id),
            feedback: None,
            embed: None,
            ephemeral: true,
            modal: true,
        }
    }

    /// A message with components, a text for the member who caused it and
    /// a text for everyone.
    pub fn interactive_with_feedback(
        data: CreateComponents,
        feedback: &str,
        display: &str,
        ephemeral: bool,
    ) -> (r: Self)
        ensures
            r@ == (ResponseView {
                interactive: true,
                interactive_data: Some(data@),
                data: Some(display@),
                feedback: Some(feedback@),
                embed: None,
                ephemeral,
                modal: false,
            }),
    {
        CommandResponseObject {
            interactive: true,
            interactive_data: Some(data),
            data: Some(String::from_str(display)),
            feedback: Some(String::from_str(feedback)),
            embed: None,
            ephemeral,
            modal: false,
        }
    }

    /// A plain text for everyone.
    pub fn text(data: &str) -> (r: Self)
        ensures
            r@ == (ResponseView {
                interactive: false,
                interactive_data: None,
                data: Some(data@),
                feedback: None,
                embed: None,
                ephemeral: false,
                modal: false,
            }),
    {
        CommandResponseObject {
            interactive: false,
            interactive_data: None,
            data: Some(String::from_str(data)),
            feedback: None,
            embed: None,
            ephemeral: false,
            modal: false,
        }
    }

    /// An embed for everyone.
    pub fn embed(data: CreateEmbed) -> (r: Self)
        ensures
            r@ == (ResponseView {
                interactive: false,
                interactive_data: None,
                data: None,
                feedback: None,
                embed: Some(data@),
                ephemeral: false,
                modal: false,
            }),
    {
        CommandResponseObject {
            interactive: false,
            interactive_data: None,
            data: None,
            feedback: None,
            embed: Some(data),
            ephemeral: false,
            modal: false,
        }
    }

    /// The report of an error, for the member who caused it.
    pub fn error(data: &str) -> (r: Self)
        ensures
            r@ == (ResponseView {
                interactive: false,
                interactive_data: None,
                data: Some(error_text(data@)),
                feedback: None,
                embed: None,
                ephemeral: true,
                modal: false,
            }),
    {
        let text = String::from_str(
            "Economist Bot encountered an error processing a command: \n`",
        ).concat(data).concat("`");
        CommandResponseObject {
            interactive: false,
            interactive_data: None,
            data: Some(text),
            feedback: None,
            embed: None,
            ephemeral: true,
            modal: false,
        }
    }

    /// Whether the answer carries components.
    pub fn is_interactive(&self) -> (b: bool)
        ensures
            b == self@.interactive,
    {
        self.interactive
    }

    /// Whether only the member who caused the answer sees it.
    pub fn is_ephemeral(&self) -> (b: bool)
        ensures
            b == self@.ephemeral,
    {
        self.ephemeral
    }

    /// Whether the answer is a modal.
    pub fn is_modal(&self) -> (b: bool)
        ensures
            b == self@.modal,
    {
        self.modal
    }

    /// The answer's text, and the empty text where it has none.
    pub fn get_text(&self) -> (s: String)
        ensures
            s@ == match self@.data {
                Some(text) => text,
                None => Seq::<char>::empty(),
            },
    {
        match &self.data {
            Some(text) => text.clone(),
            None => String::new(),
        }
    }

    /// The answer's components, to change them in place.
    pub fn get_interactive_data(&mut self) -> (c: &mut CreateComponents)
        requires
            old(self)@.interactive_data is Some,
        ensures
            c@ == old(self)@.interactive_data->0,
            final(self)@ == (ResponseView {
                interactive_data: Some(final(c)@),
                ..old(self)@
            }),
    {
        self.interactive_data.as_mut().unwrap()
    }

    /// The answer's components, where it carries any.
    pub fn get_components(&self) -> (c: &Option<CreateComponents>)
        ensures
            c is Some <==> self@.interactive_data is Some,
            c is Some ==> c->0@ == self@.interactive_data->0,
    {
        &self.interactive_data
    }

    /// The answer's embed.
    pub fn get_embed(&self) -> (e: &Option<CreateEmbed>)
        ensures
            e is Some <==> self@.embed is Some,
            e is Some ==> e->0@ == self@.embed->0,
    {
        &self.embed
    }

    /// The text for the member who caused the answer, and the empty text
    /// where there is none.
    pub fn get_feedback(&self) -> (s: String)
        ensures
            s@ == match self@.feedback {
                Some(text) => text,
                None => Seq::<char>::empty(),
            },
    {
        match &self.feedback {
            Some(text) => text.clone(),
            None => String::new(),
        }
    }
}

} // verus!
