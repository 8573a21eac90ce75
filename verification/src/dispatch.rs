//! Which handler an incoming gateway event or command goes to, and the set of
//! command schemas the bot publishes.

use vstd::prelude::*;
use crate::config_command::{config_model, is_config_model};
use crate::devforum::{devforum_model, is_devforum_model};
use crate::faq::{faq_model, is_faq_model};
use crate::highlight::{highlight_model, is_highlight_model};
use crate::interaction::CommandModel;
use crate::settings::FaqConfig;
use crate::text::str_eq;

verus! {

/// The commands of the bot.
#[derive(PartialEq, Eq, Structural, Clone, Copy, Debug)]
pub enum CommandKind {
    DevForumSelfRole,
    Config,
    Faq,
    Highlight,
}

/// The command named `name`, if any.
pub open spec fn command_for(name: Seq<char>) -> Option<CommandKind> {
    if name == "devforum-self-role"@ {
        Some(CommandKind::DevForumSelfRole)
    } else if name == "config"@ {
        Some(CommandKind::Config)
    } else if name == "faq"@ {
        Some(CommandKind::Faq)
    } else if name == "highlight"@ {
        Some(CommandKind::Highlight)
    } else {
        None
    }
}

/// The command that an invocation named `name` goes to; `None` for an
/// unknown command name.
pub fn command_for_name(name: &str) -> (r: Option<CommandKind>)
    ensures
        r == command_for(name@),
{
    if str_eq(name, "devforum-self-role") {
        Some(CommandKind::DevForumSelfRole)
    } else if str_eq(name, "config") {
        Some(CommandKind::Config)
    } else if str_eq(name, "faq") {
        Some(CommandKind::Faq)
    } else if str_eq(name, "highlight") {
        Some(CommandKind::Highlight)
    } else {
        None
    }
}

/// Whether `ms` are the published schemas: `devforum-self-role`, `config`,
/// `faq` for `faq` and `highlight`, in this order.
pub open spec fn are_models(ms: Seq<CommandModel>, faq: FaqConfig) -> bool {
    &&& ms.len() == 4
    &&& is_devforum_model(ms[0])
    &&& is_config_model(ms[1])
    &&& is_faq_model(ms[2], faq)
    &&& is_highlight_model(ms[3])
}

/// The schemas of all commands, as published when the bot starts.
pub fn models(faq: &FaqConfig) -> (r: Vec<CommandModel>)
    ensures
        are_models(r@, *faq),
{
    let mut r = Vec::new();
    r.push(devforum_model());
    r.push(config_model());
    r.push(faq_model(faq));
    r.push(highlight_model());
    r
}

/// Each published schema is dispatched to its own command.
pub proof fn lemma_models_dispatched(ms: Seq<CommandModel>, faq: FaqConfig)
    requires
        are_models(ms, faq),
    ensures
        command_for(ms[0].name@) == Some(CommandKind::DevForumSelfRole),
        command_for(ms[1].name@) == Some(CommandKind::Config),
        command_for(ms[2].name@) == Some(CommandKind::Faq),
        command_for(ms[3].name@) == Some(CommandKind::Highlight),
{
    reveal_strlit("devforum-self-role");
    reveal_strlit("config");
    reveal_strlit("faq");
    reveal_strlit("highlight");
    assert("config"@[0] != "devforum-self-role"@[0]);
    assert("faq"@[0] != "devforum-self-role"@[0] && "faq"@[0] != "config"@[0]);
    assert("highlight"@[0] != "devforum-self-role"@[0] && "highlight"@[0] != "config"@[0]
        && "highlight"@[0] != "faq"@[0]);
}

/// The kinds of interaction data an interaction can carry.
#[derive(PartialEq, Eq, Structural, Clone, Copy, Debug)]
pub enum InteractionKind {
    ApplicationCommand,
    MessageComponent,
    ModalSubmit,
    Other,
}

/// The gateway events the bot tells apart.
#[derive(PartialEq, Eq, Structural, Clone, Copy, Debug)]
pub enum EventKind {
    Ready,
    InteractionCreate(InteractionKind),
    Other,
}

/// What the bot does with an event.
#[derive(PartialEq, Eq, Structural, Clone, Copy, Debug)]
pub enum EventAction {
    /// Publish the command schemas.
    PublishCommands,
    /// Run the invoked command.
    HandleCommand,
    /// Run the handler of the clicked component.
    HandleComponent,
    /// Report an interaction of a kind the bot does not handle.
    Unsupported,
    /// Do nothing.
    Ignore,
}

/// The action for an event: publish on ready, run commands and components,
/// refuse other interactions, ignore other events.
pub fn event_action(event: EventKind) -> (r: EventAction)
    ensures
        r == match event {
            EventKind::Ready => EventAction::PublishCommands,
            EventKind::InteractionCreate(InteractionKind::ApplicationCommand) => EventAction::HandleCommand,
            EventKind::InteractionCreate(InteractionKind::MessageComponent) => EventAction::HandleComponent,
            EventKind::InteractionCreate(_) => EventAction::Unsupported,
            EventKind::Other => EventAction::Ignore,
        },
{
    match event {
        EventKind::Ready => EventAction::PublishCommands,
        EventKind::InteractionCreate(InteractionKind::ApplicationCommand) => EventAction::HandleCommand,
        EventKind::InteractionCreate(InteractionKind::MessageComponent) => EventAction::HandleComponent,
        EventKind::InteractionCreate(_) => EventAction::Unsupported,
        EventKind::Other => EventAction::Ignore,
    }
}

/// Whether the first program argument asks to validate the configuration.
pub fn is_validate_config(arg: &Option<String>) -> (r: bool)
    ensures
        r == (arg matches Some(a) && a@ == "validate-config"@),
{
    match arg {
        Some(a) => str_eq(a.as_str(), "validate-config"),
        None => false,
    }
}

} // verus!
