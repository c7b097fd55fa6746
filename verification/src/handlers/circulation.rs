//! `currency circulation`: putting money into circulation and taking it out.

use vstd::prelude::*;
use vstd::string::StringExecFns;

use crate::discord::builder::{
    option_trees, ButtonStyle, CommandOptionType, CreateApplicationCommandOption, OptionTree,
};
use crate::discord::builder::CreateComponents;
use crate::discord::interaction::{
    ApplicationCommandInteraction, CommandDataOption, MessageComponentInteraction, User,
};
use crate::handlers::boilerplate::{empty_answer, empty_response};
use crate::handlers::{
    chosen_action, confirm_cancel, confirm_cancel_of, parse_spec, quoted, quoted_text,
    read_transaction, Decision, PendingTransaction,
};
use crate::response::{CommandResponseObject, ResponseView};
use crate::types::CurrencyData;
use crate::utils::{get_options, options_of};
use crate::utils::text::{decimal, decimal_text, pad_left, same_text, zero_filled};

verus! {

/// The handler of `currency circulation`. Between the command and its
/// confirmation it remembers the transaction that was asked for.
#[derive(Debug)]
pub struct CirculationHandler {
    transaction_code: String,
    transaction_amount: i64,
    transaction_initiator: User,
}

/// The warning that goes with taking money out of circulation.
pub open spec fn removal_warning() -> Seq<char> {
    "\n**Warning**: You must only use this command if you are *certain* that you have removed the correct amount from circulation by repossessing and destroying it.\nUsing this command without doing so could result in prosecution by the Gold Standard organisation, as it will increase your currency's value illegally!"@
}

/// The text that asks to review a circulation transaction.
pub open spec fn review_text(data: CurrencyData, amount: i64, add: bool) -> Seq<char> {
    "**Review currency circulation transaction**\n> Currency: **"@ + data.currency_name@ + "** `"@
        + data.currency_code@ + "`\n> Nation/State: *"@ + data.state@ + "*\n> Amount: `"@
        + decimal(amount as int) + data.currency_code@ + "`\n> New balance: `"@ + decimal(
        data.circulation + amount,
    ) + data.currency_code@ + "`"@ + (if add {
        Seq::empty()
    } else {
        removal_warning()
    })
}

/// The text that tells everyone of a circulation transaction.
pub open spec fn broadcast_text(
    user: User,
    currency: CurrencyData,
    code: Seq<char>,
    amount: i64,
    transaction_id: i64,
) -> Seq<char> {
    user.mention_spec() + " made a currency circulation transaction:\n> Currency: **"@
        + currency.currency_name@ + "** `"@ + code + "`\n> Nation/State: *"@ + currency.state@
        + "*\n> Amount: `"@ + decimal(amount as int) + code + "`\n> New balance: `"@ + decimal(
        currency.circulation as int,
    ) + code + "`\n> Transaction ID: `#"@ + pad_left(decimal(transaction_id as int), 5, '0')
        + "`"@
}

/// The options that the handler describes to the chat service.
pub open spec fn registered() -> Seq<OptionTree> {
    seq![
        OptionTree::new(
            CommandOptionType::SubCommand,
            "add",
            "Put money into circulation",
        ).sub_option(
            OptionTree::new(
                CommandOptionType::Integer,
                "amount",
                "The amount of money to put into circulation",
            ).required(),
        ).sub_option(
            OptionTree::new(
                CommandOptionType::String,
                "code",
                "The three-letter code of the target currency",
            ).length(3, 3).required(),
        ),
        OptionTree::new(
            CommandOptionType::SubCommand,
            "remove",
            "Remove money from circulation",
        ).sub_option(
            OptionTree::new(
                CommandOptionType::Integer,
                "amount",
                "The amount of money to remove from circulation",
            ).required(),
        ).sub_option(
            OptionTree::new(
                CommandOptionType::String,
                "code",
                "The three-letter code of the target currency",
            ).length(3, 3).required(),
        ),
    ]
}

impl CirculationHandler {
    /// The transaction that the handler remembers.
    pub closed spec fn pending(self) -> PendingTransaction {
        PendingTransaction {
            code: self.transaction_code@,
            amount: self.transaction_amount,
            initiator: self.transaction_initiator,
        }
    }

    /// A handler that remembers no transaction.
    pub fn new() -> (h: Self)
        ensures
            h.pending().code == Seq::<char>::empty(),
            h.pending().amount == 0,
            h.pending().initiator.id == 0,
            h.pending().initiator.name@ == Seq::<char>::empty(),
    {
        CirculationHandler {
            transaction_code: String::new(),
            transaction_amount: 0,
            transaction_initiator: User::default(),
        }
    }

    /// The name of the handler's subcommand.
    pub fn get_name(&self) -> (name: &'static str)
        ensures
            name == "circulation",
    {
        "circulation"
    }

    /// What the handler's subcommand is for, in a few words.
    pub fn get_description(&self) -> (description: &'static str)
        ensures
            description == "Manage circulation amounts of a currency",
    {
        "Manage circulation amounts of a currency"
    }

    /// Whether the subcommand stands alone or groups actions.
    pub fn get_option_kind(&self) -> (kind: CommandOptionType)
        ensures
            kind == CommandOptionType::SubCommandGroup,
    {
        CommandOptionType::SubCommandGroup
    }

    /// The subcommands `add` and `remove`, each with a required amount and
    /// a required code of three characters.
    pub fn register(&self) -> (options: Vec<CreateApplicationCommandOption>)
        ensures
            option_trees(options@) == registered(),
    {
        let add = CreateApplicationCommandOption::new(
            CommandOptionType::SubCommand,
            "add",
            "Put money into circulation",
        ).sub_option(
            CreateApplicationCommandOption::new(
                CommandOptionType::Integer,
                "amount",
                "The amount of money to put into circulation",
            ).required(),
        ).sub_option(
            CreateApplicationCommandOption::new(
                CommandOptionType::String,
                "code",
                "The three-letter code of the target currency",
            ).length(3, 3).required(),
        );
        let remove = CreateApplicationCommandOption::new(
            CommandOptionType::SubCommand,
            "remove",
            "Remove money from circulation",
        ).sub_option(
            CreateApplicationCommandOption::new(
                CommandOptionType::Integer,
                "amount",
                "The amount of money to remove from circulation",
            ).required(),
        ).sub_option(
            CreateApplicationCommandOption::new(
                CommandOptionType::String,
                "code",
                "The three-letter code of the target currency",
            ).length(3, 3).required(),
        );
        let mut options: Vec<CreateApplicationCommandOption> = Vec::new();
        let ghost a = add@;
        let ghost r = remove@;
        options.push(add);
        options.push(remove);
        assert(option_trees(options@) =~= seq![a, r]);
        options
    }

    /// The buttons that the handler answers.
    pub fn get_pattern(&self) -> (pattern: Vec<&'static str>)
        ensures
            pattern@ == seq!["circulation-transaction-confirm", "circulation-transaction-cancel"],
    {
        let mut pattern: Vec<&'static str> = Vec::new();
        pattern.push("circulation-transaction-confirm");
        pattern.push("circulation-transaction-cancel");
        assert(pattern@ =~= seq![
            "circulation-transaction-confirm",
            "circulation-transaction-cancel",
        ]);
        pattern
    }

    /// Reads the signed amount and the currency's code from the options of
    /// `add` (where `add` holds) or `remove`.
    pub fn parse_options(&self, options: &Vec<CommandDataOption>, add: bool) -> (r: Result<
        (i64, String),
        &'static str,
    >)
        ensures
            r is Ok <==> parse_spec(options@, add) is Ok,
            r is Ok ==> r->Ok_0.0 == parse_spec(options@, add)->Ok_0.0 && r->Ok_0.1@
                == parse_spec(options@, add)->Ok_0.1,
            r is Err ==> r->Err_0 == parse_spec(options@, add)->Err_0,
    {
        read_transaction(options, add)
    }

    /// What a command asks for: the signed amount, the currency's code and
    /// whether money is added, or the text of the error.
    pub open spec fn request_spec(data: ApplicationCommandInteraction) -> Result<
        (i64, Seq<char>, bool),
        Seq<char>,
    > {
        if data.options@.len() == 0 {
            Err("Couldn't get subcommand data"@)
        } else if data.options@[0].options@.len() == 0 {
            Err("Couldn't get subcommand options"@)
        } else {
            let add = data.options@[0].options@[0].name@ == "add"@;
            match options_of(data) {
                Err(e) => Err("Error while parsing options: "@ + quoted(e)),
                Ok(options) => match parse_spec(options, add) {
                    Ok((amount, code)) => Ok((amount, code, add)),
                    Err(which) => Err(
                        if add {
                            "Can't use negative values with `/currency circulation add`. Please use `/currency circulation remove` instead."@
                        } else {
                            "Can't use negative values with `/currency circulation remove`. Please use `/currency circulation add` instead."@
                        },
                    ),
                },
            }
        }
    }

    /// Reads a command and remembers the transaction that it asks for.
    /// The caller then looks the currency up and has the answer worded by
    /// `generate_command_response`.
    pub fn handle_application_command(&mut self, data: &ApplicationCommandInteraction) -> (r:
        Result<(i64, String, bool), String>)
        ensures
            r is Ok <==> Self::request_spec(*data) is Ok,
            r is Ok ==> r->Ok_0.0 == Self::request_spec(*data)->Ok_0.0 && r->Ok_0.1@
                == Self::request_spec(*data)->Ok_0.1 && r->Ok_0.2 == Self::request_spec(
                *data,
            )->Ok_0.2,
            r is Err ==> r->Err_0@ == Self::request_spec(*data)->Err_0,
            r is Ok ==> final(self).pending() == (PendingTransaction {
                code: r->Ok_0.1@,
                amount: r->Ok_0.0,
                initiator: data.user,
            }),
            r is Err ==> final(self).pending() == old(self).pending(),
    {
        if data.options.len() == 0 {
            return Err(String::from_str("Couldn't get subcommand data"));
        }
        let action = match chosen_action(data) {
            Some(a) => a,
            None => {
                return Err(String::from_str("Couldn't get subcommand options"));
            },
        };
        let add = action.is_named("add");
        let options = match get_options(data) {
            Ok(o) => o,
            Err(e) => {
                return Err(
                    String::from_str("Error while parsing options: ").concat(
                        quoted_text(e.as_str()).as_str(),
                    ),
                );
            },
        };
        let (amount, currency_code) = match self.parse_options(options, add) {
            Ok((a, b)) => (a, b),
            Err(_) => {
                return Err(
                    if add {
                        String::from_str(
                            "Can't use negative values with `/currency circulation add`. Please use `/currency circulation remove` instead.",
                        )
                    } else {
                        String::from_str(
                            "Can't use negative values with `/currency circulation remove`. Please use `/currency circulation add` instead.",
                        )
                    },
                );
            },
        };
        self.transaction_code = currency_code.clone();
        self.transaction_amount = amount;
        self.transaction_initiator = data.user.clone();
        Ok((amount, currency_code, add))
    }

    /// The message that asks the member to review the transaction, with a
    /// button to confirm and a button to cancel. Taking money out of
    /// circulation is marked as dangerous and comes with a warning.
    pub fn generate_command_response(&self, data: &CurrencyData, amount: i64, add: bool) -> (r:
        CommandResponseObject)
        ensures
            r@ == (ResponseView {
                interactive: true,
                interactive_data: Some(
                    if add {
                        confirm_cancel_of(
                            ButtonStyle::Primary,
                            "circulation-transaction-confirm",
                            ButtonStyle::Secondary,
                            "circulation-transaction-cancel",
                        )
                    } else {
                        confirm_cancel_of(
                            ButtonStyle::Danger,
                            "circulation-transaction-confirm",
                            ButtonStyle::Primary,
                            "circulation-transaction-cancel",
                        )
                    },
                ),
                data: Some(review_text(*data, amount, add)),
                feedback: None,
                embed: None,
                ephemeral: true,
                modal: false,
            }),
    {
        let new_circulation: i128 = data.circulation as i128 + amount as i128;
        let components = if add {
            confirm_cancel(
                ButtonStyle::Primary,
                "circulation-transaction-confirm",
                ButtonStyle::Secondary,
                "circulation-transaction-cancel",
            )
        } else {
            confirm_cancel(
                ButtonStyle::Danger,
                "circulation-transaction-confirm",
                ButtonStyle::Primary,
                "circulation-transaction-cancel",
            )
        };
        let mut text = String::from_str(
            "**Review currency circulation transaction**\n> Currency: **",
        ).concat(data.currency_name.as_str()).concat("** `").concat(
            data.currency_code.as_str(),
        ).concat("`\n> Nation/State: *").concat(data.state.as_str()).concat(
            "*\n> Amount: `",
        ).concat(decimal_text(amount as i128).as_str()).concat(
            data.currency_code.as_str(),
        ).concat("`\n> New balance: `").concat(decimal_text(new_circulation).as_str()).concat(
            data.currency_code.as_str(),
        ).concat("`");
        if !add {
            text.append(
                "\n**Warning**: You must only use this command if you are *certain* that you have removed the correct amount from circulation by repossessing and destroying it.\nUsing this command without doing so could result in prosecution by the Gold Standard organisation, as it will increase your currency's value illegally!",
            );
        }
        assert(text@ =~= review_text(*data, amount, add));
        CommandResponseObject::interactive(components, text.as_str(), true)
    }

    /// What a press of the button `custom_id` asks for.
    pub fn decision(custom_id: &str) -> (d: Decision)
        ensures
            d == if custom_id@ == "circulation-transaction-confirm"@ {
                Decision::Confirm
            } else if custom_id@ == "circulation-transaction-cancel"@ {
                Decision::Cancel
            } else {
                Decision::Unknown
            },
    {
        if same_text(custom_id, "circulation-transaction-confirm") {
            Decision::Confirm
        } else if same_text(custom_id, "circulation-transaction-cancel") {
            Decision::Cancel
        } else {
            Decision::Unknown
        }
    }

    /// The currency code of the remembered transaction.
    pub fn transaction_code(&self) -> (code: &String)
        ensures
            code@ == self.pending().code,
    {
        &self.transaction_code
    }

    /// The signed amount of the remembered transaction.
    pub fn transaction_amount(&self) -> (amount: i64)
        ensures
            amount == self.pending().amount,
    {
        self.transaction_amount
    }

    /// The member who asked for the remembered transaction.
    pub fn transaction_initiator(&self) -> (user: &User)
        ensures
            *user == self.pending().initiator,
    {
        &self.transaction_initiator
    }

    /// The answer to a confirmed transaction that the ledger has made:
    /// praise for the member who pressed the button, and the news for
    /// everyone. `currency` is the currency as it stands after the
    /// transaction.
    pub fn confirmed_response(
        &self,
        data: &MessageComponentInteraction,
        currency: &CurrencyData,
        transaction_id: i64,
    ) -> (r: CommandResponseObject)
        ensures
            r@ == (ResponseView {
                interactive: true,
                interactive_data: Some(Seq::empty()),
                data: Some(
                    broadcast_text(
                        data.user,
                        *currency,
                        self.pending().code,
                        self.pending().amount,
                        transaction_id,
                    ),
                ),
                feedback: Some("Successfully completed currency circulation transaction!"@),
                embed: None,
                ephemeral: true,
                modal: false,
            }),
    {
        let code = self.transaction_code.as_str();
        let broadcast = data.user.mention().concat(
            " made a currency circulation transaction:\n> Currency: **",
        ).concat(currency.currency_name.as_str()).concat("** `").concat(code).concat(
            "`\n> Nation/State: *",
        ).concat(currency.state.as_str()).concat("*\n> Amount: `").concat(
            decimal_text(self.transaction_amount as i128).as_str(),
        ).concat(code).concat("`\n> New balance: `").concat(
            decimal_text(currency.circulation as i128).as_str(),
        ).concat(code).concat("`\n> Transaction ID: `#").concat(
            zero_filled(decimal_text(transaction_id as i128), 5).as_str(),
        ).concat("`");
        CommandResponseObject::interactive_with_feedback(
            CreateComponents::new(),
            "Successfully completed currency circulation transaction!",
            broadcast.as_str(),
            true,
        )
    }

    /// The answer to a cancelled transaction.
    pub fn cancelled_response() -> (r: CommandResponseObject)
        ensures
            r@ == (ResponseView {
                interactive: true,
                interactive_data: Some(Seq::empty()),
                data: Some(Seq::empty()),
                feedback: Some("Cancelled transaction. No records were updated."@),
                embed: None,
                ephemeral: true,
                modal: false,
            }),
    {
        proof {
            reveal_strlit("");
        }
        let r = CommandResponseObject::interactive_with_feedback(
            CreateComponents::new(),
            "Cancelled transaction. No records were updated.",
            "",
            true,
        );
        assert(r@.data->0 =~= Seq::<char>::empty());
        r
    }

    /// The answer to a button that is none of the handler's.
    pub fn unknown_response() -> (r: CommandResponseObject)
        ensures
            r@ == empty_answer(),
    {
        empty_response()
    }
}

} // verus!
