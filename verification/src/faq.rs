//! The `faq` command: it answers with a configured response, optionally
//! mentioning a user in front of it.

use vstd::prelude::*;
use crate::interaction::{
    choice_is, find_option, first_named, guild_command, new_option, option_is, option_is_plain,
    CommandModel, CommandOption, OptionKind, OptionValue, MANAGE_CHANNELS,
};
use crate::settings::{first_entry, lemma_first_entry_at_most, FaqConfig};
use crate::text::{decimal, u64_to_decimal};

verus! {

/// What a `faq` invocation asks for: the position of the configured entry to
/// answer with, and the user to mention, if any.
#[derive(PartialEq, Eq, Structural, Clone, Copy, Debug)]
pub struct FaqPlan {
    pub entry: usize,
    pub mention: Option<u64>,
}

/// Why a `faq` invocation was refused.
pub enum FaqError {
    /// No option is named `query`.
    MissingQuery,
    /// The `query` option does not hold a string.
    ExpectedStringQuery,
    /// No configured entry has this value.
    UnknownQuery(String),
    /// The `mention` option does not hold a user.
    ExpectedUser,
}

/// Whether `c` is the schema of the `faq` command for the configuration
/// `config`.
pub open spec fn is_faq_model(c: CommandModel, config: FaqConfig) -> bool {
    &&& c.name@ == "faq"@
    &&& c.description@ == "Send quick responses to common questions/queries."@
    &&& c.guild_only
    &&& c.default_member_permissions == MANAGE_CHANNELS
    &&& c.options@.len() == 2
    &&& option_is(c.options@[0], OptionKind::String, "query"@, "The response to send."@, true)
    &&& c.options@[0].channel_types@.len() == 0
    &&& c.options@[0].options@.len() == 0
    &&& c.options@[0].choices@.len() == config.entries@.len()
    &&& forall|i: int|
        0 <= i < config.entries@.len() ==> choice_is(
            #[trigger] c.options@[0].choices@[i],
            config.entries@[i].label@,
            config.entries@[i].value@,
        )
    &&& option_is(
        c.options@[1],
        OptionKind::User,
        "mention"@,
        "The user to mention in the response."@,
        false,
    )
    &&& option_is_plain(c.options@[1])
}

/// The schema of the `faq` command: a required `query` string whose choices
/// are the configured entries, and an optional user to `mention`.
pub fn faq_model(config: &FaqConfig) -> (c: CommandModel)
    ensures
        is_faq_model(c, *config),
{
    let mut query = new_option(OptionKind::String, "query", "The response to send.");
    query.choices = config.faq_option_choices();
    query.required = true;
    let mention = new_option(OptionKind::User, "mention", "The user to mention in the response.");
    let mut options = Vec::new();
    options.push(query);
    options.push(mention);
    guild_command("faq", "Send quick responses to common questions/queries.", options)
}

/// Every query choice that the `faq` schema offers names a configured entry,
/// so an invocation that picks it is answered.
pub proof fn lemma_faq_model_answers(c: CommandModel, config: FaqConfig, i: int)
    requires
        is_faq_model(c, config),
        0 <= i < c.options@[0].choices@.len(),
    ensures
        first_entry(config.entries@, c.options@[0].choices@[i].value@) is Some,
{
    assert(choice_is(c.options@[0].choices@[i], config.entries@[i].label@, config.entries@[i].value@));
    lemma_first_entry_at_most(config.entries@, config.entries@[i].value@, i);
}

/// What a `faq` invocation with `options` asks for: the first `query` option
/// must hold a string that some entry has as value, and the first `mention`
/// option, when there is one, must hold a user.
pub fn plan_faq(options: &Vec<CommandOption>, config: &FaqConfig) -> (r: Result<FaqPlan, FaqError>)
    ensures
        first_named(options@, "query"@) is None ==> r matches Err(FaqError::MissingQuery),
        first_named(options@, "query"@) matches Some(qi) ==> match options@[qi].value {
            OptionValue::String(q) => match first_entry(config.entries@, q@) {
                None => r matches Err(FaqError::UnknownQuery(t)) && t@ == q@,
                Some(ei) => match first_named(options@, "mention"@) {
                    None => r matches Ok(p) && p.entry == ei && p.mention is None,
                    Some(mi) => match options@[mi].value {
                        OptionValue::User(u) => r matches Ok(p) && p.entry == ei && p.mention
                            == Some(u),
                        _ => r matches Err(FaqError::ExpectedUser),
                    },
                },
            },
            _ => r matches Err(FaqError::ExpectedStringQuery),
        },
{
    let qi = match find_option(options, "query") {
        Some(i) => i,
        None => return Err(FaqError::MissingQuery),
    };
    let query = match &options[qi].value {
        OptionValue::String(q) => q,
        _ => return Err(FaqError::ExpectedStringQuery),
    };
    let entry = match config.faq_option_response(query.as_str()) {
        Some(e) => e,
        None => return Err(FaqError::UnknownQuery(query.clone())),
    };
    let mention = match find_option(options, "mention") {
        None => None,
        Some(mi) => match &options[mi].value {
            OptionValue::User(u) => Some(*u),
            _ => return Err(FaqError::ExpectedUser),
        },
    };
    Ok(FaqPlan { entry, mention })
}

/// The text that mentions user `user`.
pub open spec fn mention_text(user: u64) -> Seq<char> {
    "<@"@ + decimal(user as nat) + ">"@
}

/// The content of the answer: with no mention the configured content stays as
/// it is; with one, the mention stands alone or in front of the content,
/// separated by a space.
pub fn answer_content(content: Option<String>, mention: Option<u64>) -> (r: Option<String>)
    ensures
        match mention {
            None => r == content,
            Some(u) => match content {
                None => r matches Some(t) && t@ == mention_text(u),
                Some(c) => r matches Some(t) && t@ == mention_text(u) + " "@ + c@,
            },
        },
{
    match mention {
        None => content,
        Some(u) => {
            let mut t = "<@".to_owned();
            t.append(u64_to_decimal(u).as_str());
            t.append(">");
            match content {
                None => Some(t),
                Some(c) => {
                    t.append(" ");
                    t.append(c.as_str());
                    Some(t)
                },
            }
        },
    }
}

} // verus!
