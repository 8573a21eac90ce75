//! The `highlight` command: its schema, the scopes and pattern types it knows,
//! and the parsing of its subcommands into actions.

use vstd::prelude::*;
use crate::interaction::{
    choice_is, guild_command, new_choice, new_option, option_is, option_is_plain, text_response,
    same_choice, same_command, same_option, Choice, ChannelKind, CommandModel, CommandOption, OptionKind, OptionModel, OptionValue,
    ResponseData, MANAGE_CHANNELS,
};
use crate::interaction::{first_named, lemma_first_option_unique, first_option_named};
use crate::text::str_eq;

verus! {

/// The most patterns a user may keep.
pub const PATTERN_LIMIT: u64 = 20;

/// The most channels a user may keep per scope.
pub const CHANNEL_LIMIT: u64 = 40;

/// The longest pattern, in characters.
pub const PATTERN_MAX_LENGTH: u64 = 100;

/// Whether a channel is one to highlight in or one to ignore.
#[derive(PartialEq, Eq, Structural, Clone, Copy, Debug)]
pub enum Scope {
    Whitelist,
    Blacklist,
}

/// How a highlight pattern is matched.
#[derive(PartialEq, Eq, Structural, Clone, Copy, Debug)]
pub enum PatternType {
    Exact,
    Wildcard,
    Regex,
}

/// Why a text was not a scope or a pattern type.
pub enum NameError {
    UnknownScope(String),
    UnknownPatternType(String),
}

impl Scope {
    /// The name of the scope, as stored and displayed.
    pub open spec fn name_view(self) -> Seq<char> {
        match self {
            Scope::Whitelist => "whitelist"@,
            Scope::Blacklist => "blacklist"@,
        }
    }

    /// The name of the scope.
    pub fn to_string(&self) -> (r: String)
        ensures
            r@ == self.name_view(),
    {
        match self {
            Scope::Whitelist => "whitelist".to_owned(),
            Scope::Blacklist => "blacklist".to_owned(),
        }
    }

    /// Parses a scope from its name; any other text is refused.
    pub fn try_from(value: &str) -> (r: Result<Scope, NameError>)
        ensures
            match scope_from_name(value@) {
                Some(s) => r == Ok::<Scope, NameError>(s),
                None => r matches Err(NameError::UnknownScope(t)) && t@ == value@,
            },
    {
        if str_eq(value, "whitelist") {
            Ok(Scope::Whitelist)
        } else if str_eq(value, "blacklist") {
            Ok(Scope::Blacklist)
        } else {
            Err(NameError::UnknownScope(value.to_owned()))
        }
    }

    /// The choice that offers this scope: capitalised name, scope name as value.
    pub fn as_choice(&self) -> (c: Choice)
        ensures
            choice_is(c, scope_label(*self), self.name_view()),
    {
        match self {
            Scope::Whitelist => new_choice("Whitelist", "whitelist"),
            Scope::Blacklist => new_choice("Blacklist", "blacklist"),
        }
    }
}

/// The label under which a scope is offered.
pub open spec fn scope_label(s: Scope) -> Seq<char> {
    match s {
        Scope::Whitelist => "Whitelist"@,
        Scope::Blacklist => "Blacklist"@,
    }
}

/// The scope named `s`, if any.
pub open spec fn scope_from_name(s: Seq<char>) -> Option<Scope> {
    if s == "whitelist"@ {
        Some(Scope::Whitelist)
    } else if s == "blacklist"@ {
        Some(Scope::Blacklist)
    } else {
        None
    }
}

impl PatternType {
    /// The name of the pattern type, as stored and displayed.
    pub open spec fn name_view(self) -> Seq<char> {
        match self {
            PatternType::Exact => "exact"@,
            PatternType::Wildcard => "wildcard"@,
            PatternType::Regex => "regex"@,
        }
    }

    /// The name of the pattern type.
    pub fn to_string(&self) -> (r: String)
        ensures
            r@ == self.name_view(),
    {
        match self {
            PatternType::Exact => "exact".to_owned(),
            PatternType::Wildcard => "wildcard".to_owned(),
            PatternType::Regex => "regex".to_owned(),
        }
    }

    /// Parses a pattern type from its name; any other text is refused.
    pub fn try_from(value: &str) -> (r: Result<PatternType, NameError>)
        ensures
            match pattern_type_from_name(value@) {
                Some(p) => r == Ok::<PatternType, NameError>(p),
                None => r matches Err(NameError::UnknownPatternType(t)) && t@ == value@,
            },
    {
        if str_eq(value, "exact") {
            Ok(PatternType::Exact)
        } else if str_eq(value, "wildcard") {
            Ok(PatternType::Wildcard)
        } else if str_eq(value, "regex") {
            Ok(PatternType::Regex)
        } else {
            Err(NameError::UnknownPatternType(value.to_owned()))
        }
    }
}

/// The pattern type named `s`, if any.
pub open spec fn pattern_type_from_name(s: Seq<char>) -> Option<PatternType> {
    if s == "exact"@ {
        Some(PatternType::Exact)
    } else if s == "wildcard"@ {
        Some(PatternType::Wildcard)
    } else if s == "regex"@ {
        Some(PatternType::Regex)
    } else {
        None
    }
}

/// A scope's name parses back to the scope, and a parsed scope has the parsed
/// text as its name.
pub proof fn lemma_scope_round_trip(scope: Scope, s: Seq<char>)
    ensures
        scope_from_name(scope.name_view()) == Some(scope),
        scope_from_name(s) matches Some(parsed) ==> parsed.name_view() == s,
{
    reveal_strlit("whitelist");
    reveal_strlit("blacklist");
    assert("whitelist"@[0] != "blacklist"@[0]);
}

/// A pattern type's name parses back to the pattern type, and a parsed pattern
/// type has the parsed text as its name.
pub proof fn lemma_pattern_type_round_trip(p: PatternType, s: Seq<char>)
    ensures
        pattern_type_from_name(p.name_view()) == Some(p),
        pattern_type_from_name(s) matches Some(parsed) ==> parsed.name_view() == s,
{
    reveal_strlit("exact");
    reveal_strlit("wildcard");
    reveal_strlit("regex");
    assert("exact"@[0] != "wildcard"@[0]);
    assert("exact"@[0] != "regex"@[0]);
    assert("wildcard"@[0] != "regex"@[0]);
}

/// Whether `o` is the required `scope` option that offers both scopes.
pub open spec fn is_scope_option(o: OptionModel) -> bool {
    &&& option_is(o, OptionKind::String, "scope"@, "The scope of the channel."@, true)
    &&& o.channel_types@.len() == 0
    &&& o.options@.len() == 0
    &&& o.choices@.len() == 2
    &&& choice_is(o.choices@[0], scope_label(Scope::Whitelist), Scope::Whitelist.name_view())
    &&& choice_is(o.choices@[1], scope_label(Scope::Blacklist), Scope::Blacklist.name_view())
}

/// Whether `o` is a subcommand that takes a required text channel and a scope.
pub open spec fn is_channel_subcommand(
    o: OptionModel,
    name: Seq<char>,
    description: Seq<char>,
    channel_description: Seq<char>,
) -> bool {
    &&& option_is(o, OptionKind::SubCommand, name, description, false)
    &&& o.choices@.len() == 0
    &&& o.channel_types@.len() == 0
    &&& o.options@.len() == 2
    &&& option_is(o.options@[0], OptionKind::Channel, "channel"@, channel_description, true)
    &&& o.options@[0].choices@.len() == 0
    &&& o.options@[0].channel_types@ == seq![ChannelKind::GuildText]
    &&& o.options@[0].options@.len() == 0
    &&& is_scope_option(o.options@[1])
}

/// Whether `o` is a subcommand with the one option `option`.
pub open spec fn is_subcommand_with(
    o: OptionModel,
    name: Seq<char>,
    description: Seq<char>,
    option_kind: OptionKind,
    option_name: Seq<char>,
    option_description: Seq<char>,
    option_required: bool,
) -> bool {
    &&& option_is(o, OptionKind::SubCommand, name, description, false)
    &&& o.choices@.len() == 0
    &&& o.channel_types@.len() == 0
    &&& o.options@.len() == 1
    &&& option_is(o.options@[0], option_kind, option_name, option_description, option_required)
    &&& option_is_plain(o.options@[0])
}

/// Whether `o` is a subcommand group with the given subcommands.
pub open spec fn is_group(o: OptionModel, name: Seq<char>, description: Seq<char>, n: nat) -> bool {
    &&& option_is(o, OptionKind::SubCommandGroup, name, description, false)
    &&& o.choices@.len() == 0
    &&& o.channel_types@.len() == 0
    &&& o.options@.len() == n
}

/// Whether `c` is the schema of the `highlight` command.
pub open spec fn is_highlight_model(c: CommandModel) -> bool {
    &&& c.name@ == "highlight"@
    &&& c.description@ == "Manage highlights."@
    &&& c.guild_only
    &&& c.default_member_permissions == MANAGE_CHANNELS
    &&& c.options@.len() == 4
    &&& is_group(c.options@[0], "channel"@, "Manage channel scoping."@, 3)
    &&& is_channel_subcommand(
        c.options@[0].options@[0],
        "add"@,
        "Add a channel to the scope."@,
        "The channel to add."@,
    )
    &&& is_channel_subcommand(
        c.options@[0].options@[1],
        "remove"@,
        "Remove a channel from the scope."@,
        "The channel to remove."@,
    )
    &&& option_is(
        c.options@[0].options@[2],
        OptionKind::SubCommand,
        "clear"@,
        "Clear all channels from the scope."@,
        false,
    )
    &&& option_is_plain(c.options@[0].options@[2])
    &&& is_group(c.options@[1], "pattern"@, "Manage pattern scoping."@, 3)
    &&& is_subcommand_with(
        c.options@[1].options@[0],
        "add"@,
        "Add a pattern to the scope."@,
        OptionKind::String,
        "pattern"@,
        "The pattern to add."@,
        true,
    )
    &&& is_subcommand_with(
        c.options@[1].options@[1],
        "remove"@,
        "Remove a pattern from the scope."@,
        OptionKind::String,
        "pattern"@,
        "The pattern to remove."@,
        true,
    )
    &&& option_is(
        c.options@[1].options@[2],
        OptionKind::SubCommand,
        "clear"@,
        "Clear all patterns from the scope."@,
        false,
    )
    &&& option_is_plain(c.options@[1].options@[2])
    &&& is_subcommand_with(
        c.options@[2],
        "list"@,
        "List all patterns."@,
        OptionKind::User,
        "user"@,
        "The user to view the highlights of."@,
        false,
    )
    &&& is_subcommand_with(
        c.options@[3],
        "erase"@,
        "Erase a pattern."@,
        OptionKind::User,
        "user"@,
        "The user to erase the highlights of."@,
        false,
    )
}

/// The required `scope` option offering both scopes.
fn scope_option() -> (o: OptionModel)
    ensures
        is_scope_option(o),
{
    let mut o = new_option(OptionKind::String, "scope", "The scope of the channel.");
    o.choices.push(Scope::Whitelist.as_choice());
    o.choices.push(Scope::Blacklist.as_choice());
    o.required = true;
    o
}

/// A subcommand taking a required text channel and a scope.
fn channel_subcommand(name: &str, description: &str, channel_description: &str) -> (o: OptionModel)
    ensures
        is_channel_subcommand(o, name@, description@, channel_description@),
{
    let mut channel = new_option(OptionKind::Channel, "channel", channel_description);
    channel.channel_types.push(ChannelKind::GuildText);
    channel.required = true;
    let mut o = new_option(OptionKind::SubCommand, name, description);
    o.options.push(channel);
    o.options.push(scope_option());
    assert(o.options@[0].channel_types@ =~= seq![ChannelKind::GuildText]);
    o
}

/// A subcommand with one option.
fn subcommand_with(
    name: &str,
    description: &str,
    option_kind: OptionKind,
    option_name: &str,
    option_description: &str,
    option_required: bool,
) -> (o: OptionModel)
    ensures
        is_subcommand_with(
            o,
            name@,
            description@,
            option_kind,
            option_name@,
            option_description@,
            option_required,
        ),
{
    let mut inner = new_option(option_kind, option_name, option_description);
    inner.required = option_required;
    let mut o = new_option(OptionKind::SubCommand, name, description);
    o.options.push(inner);
    o
}

/// The schema of the `highlight` command: the `channel` and `pattern` groups
/// with their `add`, `remove` and `clear` subcommands, and the `list` and
/// `erase` subcommands.
pub fn highlight_model() -> (c: CommandModel)
    ensures
        is_highlight_model(c),
{
    let mut channel_group = new_option(
        OptionKind::SubCommandGroup,
        "channel",
        "Manage channel scoping.",
    );
    channel_group.options.push(
        channel_subcommand("add", "Add a channel to the scope.", "The channel to add."),
    );
    channel_group.options.push(
        channel_subcommand("remove", "Remove a channel from the scope.", "The channel to remove."),
    );
    channel_group.options.push(
        new_option(OptionKind::SubCommand, "clear", "Clear all channels from the scope."),
    );
    let mut pattern_group = new_option(
        OptionKind::SubCommandGroup,
        "pattern",
        "Manage pattern scoping.",
    );
    pattern_group.options.push(
        subcommand_with(
            "add",
            "Add a pattern to the scope.",
            OptionKind::String,
            "pattern",
            "The pattern to add.",
            true,
        ),
    );
    pattern_group.options.push(
        subcommand_with(
            "remove",
            "Remove a pattern from the scope.",
            OptionKind::String,
            "pattern",
            "The pattern to remove.",
            true,
        ),
    );
    pattern_group.options.push(
        new_option(OptionKind::SubCommand, "clear", "Clear all patterns from the scope."),
    );
    let list = subcommand_with(
        "list",
        "List all patterns.",
        OptionKind::User,
        "user",
        "The user to view the highlights of.",
        false,
    );
    let erase = subcommand_with(
        "erase",
        "Erase a pattern.",
        OptionKind::User,
        "user",
        "The user to erase the highlights of.",
        false,
    );
    let mut options = Vec::new();
    options.push(channel_group);
    options.push(pattern_group);
    options.push(list);
    options.push(erase);
    guild_command("highlight", "Manage highlights.", options)
}

/// The part of the `highlight` command that an invocation addresses.
#[derive(PartialEq, Eq, Structural, Clone, Copy, Debug)]
pub enum HighlightRoute {
    Channel,
    Pattern,
    List,
    Erase,
}

/// The route for the subcommand named `name`, if it is one.
pub open spec fn route_for(name: Seq<char>) -> Option<HighlightRoute> {
    if name == "channel"@ {
        Some(HighlightRoute::Channel)
    } else if name == "pattern"@ {
        Some(HighlightRoute::Pattern)
    } else if name == "list"@ {
        Some(HighlightRoute::List)
    } else if name == "erase"@ {
        Some(HighlightRoute::Erase)
    } else {
        None
    }
}

/// The route of an invocation: chosen by the name of its first option;
/// `None` for an unknown subcommand.
pub fn route_highlight(options: &Vec<CommandOption>) -> (r: Option<HighlightRoute>)
    requires
        options@.len() > 0,
    ensures
        r == route_for(options@[0].name@),
{
    let name = options[0].name.as_str();
    if str_eq(name, "channel") {
        Some(HighlightRoute::Channel)
    } else if str_eq(name, "pattern") {
        Some(HighlightRoute::Pattern)
    } else if str_eq(name, "list") {
        Some(HighlightRoute::List)
    } else if str_eq(name, "erase") {
        Some(HighlightRoute::Erase)
    } else {
        None
    }
}

/// What a `highlight channel` invocation asks for.
#[derive(PartialEq, Eq, Structural, Clone, Copy, Debug)]
pub enum ChannelAction {
    Clear,
    Add { channel: u64, scope: Scope },
    Remove { channel: u64, scope: Scope },
}

/// What a `highlight pattern` invocation asks for.
pub enum PatternAction {
    Clear,
    Add(String),
    Remove(String),
}

/// Why a `highlight` invocation was refused.
pub enum HighlightError {
    ExpectedChannelId,
    ExpectedScopeString,
    ExpectedPatternString,
    UnknownSubcommand(String),
}

/// Whether a `highlight channel` invocation has the options that are read
/// without a check: the subcommand; unless it is `clear`, the channel option;
/// when that holds a channel, the scope option; and when that holds text, a
/// valid scope name.
pub open spec fn channel_options_complete(o: Seq<CommandOption>) -> bool {
    &&& o.len() > 1
    &&& o[1].name@ != "clear"@ ==> {
        &&& o.len() > 2
        &&& o[2].value is Channel ==> {
            &&& o.len() > 3
            &&& o[3].value matches OptionValue::String(s) ==> scope_from_name(s@) is Some
        }
    }
}

/// Tells whether `channel_options_complete` holds of `options`.
pub fn channel_options_are_complete(options: &Vec<CommandOption>) -> (r: bool)
    ensures
        r == channel_options_complete(options@),
{
    if options.len() <= 1 {
        return false;
    }
    if str_eq(options[1].name.as_str(), "clear") {
        return true;
    }
    if options.len() <= 2 {
        return false;
    }
    match &options[2].value {
        OptionValue::Channel(_) => {},
        _ => return true,
    }
    if options.len() <= 3 {
        return false;
    }
    match &options[3].value {
        OptionValue::String(s) => Scope::try_from(s.as_str()).is_ok(),
        _ => true,
    }
}

/// The action of a `highlight channel` invocation: `clear` needs nothing
/// more; otherwise the third option must hold a channel and the fourth a
/// scope, and the subcommand must be `add` or `remove`.
pub fn manage_highlight_channels(options: &Vec<CommandOption>) -> (r: Result<ChannelAction, HighlightError>)
    requires
        channel_options_complete(options@),
    ensures
        options@[1].name@ == "clear"@ ==> r == Ok::<ChannelAction, HighlightError>(ChannelAction::Clear),
        options@[1].name@ != "clear"@ ==> match options@[2].value {
            OptionValue::Channel(channel) => match options@[3].value {
                OptionValue::String(text) => {
                    let scope = scope_from_name(text@)->0;
                    if options@[1].name@ == "add"@ {
                        r == Ok::<ChannelAction, HighlightError>(ChannelAction::Add { channel, scope })
                    } else if options@[1].name@ == "remove"@ {
                        r == Ok::<ChannelAction, HighlightError>(ChannelAction::Remove { channel, scope })
                    } else {
                        r matches Err(HighlightError::UnknownSubcommand(n)) && n@ == options@[1].name@
                    }
                },
                _ => r matches Err(HighlightError::ExpectedScopeString),
            },
            _ => r matches Err(HighlightError::ExpectedChannelId),
        },
{
    let sub = options[1].name.as_str();
    if str_eq(sub, "clear") {
        return Ok(ChannelAction::Clear);
    }
    let channel = match &options[2].value {
        OptionValue::Channel(c) => *c,
        _ => return Err(HighlightError::ExpectedChannelId),
    };
    let text = match &options[3].value {
        OptionValue::String(t) => t,
        _ => return Err(HighlightError::ExpectedScopeString),
    };
    let scope = match Scope::try_from(text.as_str()) {
        Ok(s) => s,
        Err(_) => return Err(HighlightError::ExpectedScopeString),
    };
    if str_eq(sub, "add") {
        Ok(ChannelAction::Add { channel, scope })
    } else if str_eq(sub, "remove") {
        Ok(ChannelAction::Remove { channel, scope })
    } else {
        Err(HighlightError::UnknownSubcommand(options[1].name.clone()))
    }
}

/// Whether a `highlight pattern` invocation has the options that are read
/// without a check: the subcommand and, unless it is `clear`, the pattern.
pub open spec fn pattern_options_complete(o: Seq<CommandOption>) -> bool {
    o.len() > 1 && (o[1].name@ != "clear"@ ==> o.len() > 2)
}

/// Tells whether `pattern_options_complete` holds of `options`.
pub fn pattern_options_are_complete(options: &Vec<CommandOption>) -> (r: bool)
    ensures
        r == pattern_options_complete(options@),
{
    options.len() > 1 && (str_eq(options[1].name.as_str(), "clear") || options.len() > 2)
}

/// The action of a `highlight pattern` invocation: `clear` needs nothing
/// more; otherwise the third option must hold the pattern text and the
/// subcommand must be `add` or `remove`.
pub fn manage_highlight_patterns(options: &Vec<CommandOption>) -> (r: Result<PatternAction, HighlightError>)
    requires
        pattern_options_complete(options@),
    ensures
        options@[1].name@ == "clear"@ ==> r matches Ok(PatternAction::Clear),
        options@[1].name@ != "clear"@ ==> match options@[2].value {
            OptionValue::String(pattern) => if options@[1].name@ == "add"@ {
                r matches Ok(PatternAction::Add(p)) && p@ == pattern@
            } else if options@[1].name@ == "remove"@ {
                r matches Ok(PatternAction::Remove(p)) && p@ == pattern@
            } else {
                r matches Err(HighlightError::UnknownSubcommand(n)) && n@ == options@[1].name@
            },
            _ => r matches Err(HighlightError::ExpectedPatternString),
        },
{
    let sub = options[1].name.as_str();
    if str_eq(sub, "clear") {
        return Ok(PatternAction::Clear);
    }
    let pattern = match &options[2].value {
        OptionValue::String(p) => p,
        _ => return Err(HighlightError::ExpectedPatternString),
    };
    if str_eq(sub, "add") {
        Ok(PatternAction::Add(pattern.clone()))
    } else if str_eq(sub, "remove") {
        Ok(PatternAction::Remove(pattern.clone()))
    } else {
        Err(HighlightError::UnknownSubcommand(options[1].name.clone()))
    }
}

/// The private answer given when a highlight request fails.
pub fn error_response() -> (r: ResponseData)
    ensures
        r.content matches Some(c) && c@ == "An error occurred while processing your request."@,
        r.embeds@.len() == 0,
        r.ephemeral,
{
    text_response("An error occurred while processing your request.", true)
}

/// Every subcommand that the `highlight` schema declares is routed, every
/// subcommand of its groups is one that the group handles, and every scope
/// choice it offers parses as a scope.
pub proof fn lemma_highlight_model_handled(c: CommandModel)
    requires
        is_highlight_model(c),
    ensures
        forall|i: int| 0 <= i < c.options@.len() ==> (#[trigger] route_for(c.options@[i].name@)) is Some,
        forall|g: int, k: int|
            0 <= g < 2 && 0 <= k < c.options@[g].options@.len() ==> {
                let n = #[trigger] c.options@[g].options@[k].name@;
                n == "add"@ || n == "remove"@ || n == "clear"@
            },
        forall|k: int, j: int|
            0 <= k < 2 && 0 <= j < 2 ==> (#[trigger] scope_from_name(
                c.options@[0].options@[k].options@[1].choices@[j].value@,
            )) is Some,
{
    reveal_strlit("channel");
    reveal_strlit("pattern");
    reveal_strlit("list");
    reveal_strlit("erase");
    assert("channel"@[0] != "pattern"@[0]);
    assert("list"@[0] != "channel"@[0] && "list"@[0] != "pattern"@[0]);
    assert("erase"@[0] != "channel"@[0] && "erase"@[0] != "pattern"@[0] && "erase"@[0] != "list"@[0]);
    lemma_scope_round_trip(Scope::Whitelist, "whitelist"@);
    lemma_scope_round_trip(Scope::Blacklist, "blacklist"@);
}

/// The arguments of the `list` subcommand: the options nested in the first
/// option when that is a subcommand, else the options after it.
pub open spec fn list_arguments(options: Seq<CommandOption>) -> Seq<CommandOption> {
    match options[0].value {
        OptionValue::SubCommand(inner) => inner@,
        _ => options.drop_first(),
    }
}

/// The user whose highlights `highlight list` shows: the user of its first
/// `user` argument, or the invoking author when there is no such argument or
/// it holds no user.
pub open spec fn listed_user_spec(options: Seq<CommandOption>, author_id: u64) -> u64 {
    let args = list_arguments(options);
    match first_named(args, "user"@) {
        Some(i) => match args[i].value {
            OptionValue::User(u) => u,
            _ => author_id,
        },
        None => author_id,
    }
}

/// The first option named `name` at or after position `start`, relative to
/// `start`.
fn find_option_from(options: &Vec<CommandOption>, name: &str, start: usize) -> (r: Option<usize>)
    requires
        start <= options@.len(),
    ensures
        match r {
            Some(i) => first_named(options@.skip(start as int), name@) == Some(i as int),
            None => first_named(options@.skip(start as int), name@) is None,
        },
{
    let ghost rest = options@.skip(start as int);
    let target = name.to_owned();
    let mut i: usize = start;
    while i < options.len()
        invariant
            start <= i <= options@.len(),
            target@ == name@,
            rest == options@.skip(start as int),
            forall|j: int| 0 <= j < i - start ==> rest[j].name@ != name@,
        decreases options@.len() - i,
    {
        if options[i].name == target {
            proof {
                let k = (i - start) as int;
                assert(rest[k] == options@[i as int]);
                assert(first_option_named(rest, name@, k));
                let c = choose|m: int| first_option_named(rest, name@, m);
                lemma_first_option_unique(rest, name@, k, c);
            }
            return Some(i - start);
        }
        i = i + 1;
    }
    None
}

/// The user whose highlights `highlight list` shows: the user named by its
/// `user` argument, or else the invoking author `author_id`.
pub fn listed_user(options: &Vec<CommandOption>, author_id: u64) -> (r: u64)
    requires
        options@.len() > 0,
    ensures
        r == listed_user_spec(options@, author_id),
{
    match &options[0].value {
        OptionValue::SubCommand(inner) => {
            assert(inner@.skip(0) =~= inner@);
            match find_option_from(inner, "user", 0) {
                Some(i) => match &inner[i].value {
                    OptionValue::User(u) => *u,
                    _ => author_id,
                },
                None => author_id,
            }
        },
        _ => {
            assert(options@.skip(1) =~= options@.drop_first());
            match find_option_from(options, "user", 1) {
                Some(i) => {
                    assert(first_option_named(options@.skip(1), "user"@, i as int));
                    let n = options.len();
                    assert(i + 1 < n);
                    match &options[i + 1].value {
                        OptionValue::User(u) => *u,
                        _ => author_id,
                    }
                },
                None => author_id,
            }
        },
    }
}

/// Two option schemas with the same fields and nothing nested agree.
proof fn lemma_same_plain(a: OptionModel, b: OptionModel, depth: nat)
    requires
        a.kind == b.kind,
        a.name@ == b.name@,
        a.description@ == b.description@,
        a.required == b.required,
        option_is_plain(a),
        option_is_plain(b),
    ensures
        same_option(a, b, depth),
{
    assert(a.channel_types@ =~= b.channel_types@);
}

/// Two scope options agree.
proof fn lemma_same_scope_option(a: OptionModel, b: OptionModel)
    requires
        is_scope_option(a),
        is_scope_option(b),
    ensures
        same_option(a, b, 0),
{
    assert(a.channel_types@ =~= b.channel_types@);
    assert forall|n: int| 0 <= n < a.choices@.len() implies same_choice(#[trigger] a.choices@[n], b.choices@[n]) by {
        assert(n == 0 || n == 1);
    }
}

/// Two channel subcommands of the same name and texts agree.
proof fn lemma_same_channel_subcommand(a: OptionModel, b: OptionModel, name: Seq<char>, d: Seq<char>, cd: Seq<char>)
    requires
        is_channel_subcommand(a, name, d, cd),
        is_channel_subcommand(b, name, d, cd),
    ensures
        same_option(a, b, 1),
{
    lemma_same_scope_option(a.options@[1], b.options@[1]);
    lemma_same_plain_channel(a.options@[0], b.options@[0]);
    assert(a.channel_types@ =~= b.channel_types@);
    assert forall|m: int| 0 <= m < a.options@.len() implies same_option(#[trigger] a.options@[m], b.options@[m], 0) by {
        assert(m == 0 || m == 1);
    }
}

/// Two channel options restricted to text channels agree.
proof fn lemma_same_plain_channel(a: OptionModel, b: OptionModel)
    requires
        option_is(a, OptionKind::Channel, "channel"@, b.description@, true),
        option_is(b, OptionKind::Channel, "channel"@, b.description@, true),
        a.choices@.len() == 0,
        b.choices@.len() == 0,
        a.channel_types@ == seq![ChannelKind::GuildText],
        b.channel_types@ == seq![ChannelKind::GuildText],
        a.options@.len() == 0,
        b.options@.len() == 0,
    ensures
        same_option(a, b, 0),
{
}

/// Two subcommands with one plain option of the same shape agree.
proof fn lemma_same_subcommand_with(
    a: OptionModel,
    b: OptionModel,
    name: Seq<char>,
    d: Seq<char>,
    k: OptionKind,
    on: Seq<char>,
    od: Seq<char>,
    req: bool,
    depth: nat,
)
    requires
        depth >= 1,
        is_subcommand_with(a, name, d, k, on, od, req),
        is_subcommand_with(b, name, d, k, on, od, req),
    ensures
        same_option(a, b, depth),
{
    lemma_same_plain(a.options@[0], b.options@[0], (depth - 1) as nat);
    assert(a.channel_types@ =~= b.channel_types@);
    assert forall|m: int| 0 <= m < a.options@.len() implies same_option(#[trigger] a.options@[m], b.options@[m], (depth - 1) as nat) by {
        assert(m == 0);
    }
}

/// The `highlight` schema is one schema: any two values that meet its
/// description, such as the results of two calls of `highlight_model`, agree
/// field by field.
pub proof fn lemma_highlight_model_unique(a: CommandModel, b: CommandModel)
    requires
        is_highlight_model(a),
        is_highlight_model(b),
    ensures
        same_command(a, b),
{
    let (ac, bc) = (a.options@[0], b.options@[0]);
    lemma_same_channel_subcommand(ac.options@[0], bc.options@[0], "add"@, "Add a channel to the scope."@, "The channel to add."@);
    lemma_same_channel_subcommand(ac.options@[1], bc.options@[1], "remove"@, "Remove a channel from the scope."@, "The channel to remove."@);
    lemma_same_plain(ac.options@[2], bc.options@[2], 1);
    assert(ac.channel_types@ =~= bc.channel_types@);
    assert(same_option(ac, bc, 2)) by {
        assert forall|m: int| 0 <= m < ac.options@.len() implies same_option(#[trigger] ac.options@[m], bc.options@[m], 1) by {
            assert(m == 0 || m == 1 || m == 2);
        }
    }
    let (ap, bp) = (a.options@[1], b.options@[1]);
    lemma_same_subcommand_with(ap.options@[0], bp.options@[0], "add"@, "Add a pattern to the scope."@, OptionKind::String, "pattern"@, "The pattern to add."@, true, 1);
    lemma_same_subcommand_with(ap.options@[1], bp.options@[1], "remove"@, "Remove a pattern from the scope."@, OptionKind::String, "pattern"@, "The pattern to remove."@, true, 1);
    lemma_same_plain(ap.options@[2], bp.options@[2], 1);
    assert(ap.channel_types@ =~= bp.channel_types@);
    assert(same_option(ap, bp, 2)) by {
        assert forall|m: int| 0 <= m < ap.options@.len() implies same_option(#[trigger] ap.options@[m], bp.options@[m], 1) by {
            assert(m == 0 || m == 1 || m == 2);
        }
    }
    lemma_same_subcommand_with(a.options@[2], b.options@[2], "list"@, "List all patterns."@, OptionKind::User, "user"@, "The user to view the highlights of."@, false, 2);
    lemma_same_subcommand_with(a.options@[3], b.options@[3], "erase"@, "Erase a pattern."@, OptionKind::User, "user"@, "The user to erase the highlights of."@, false, 2);
    assert forall|i: int| 0 <= i < a.options@.len() implies same_option(#[trigger] a.options@[i], b.options@[i], 2) by {
        assert(i == 0 || i == 1 || i == 2 || i == 3);
    }
}

/// The labels under which the scopes are offered are `Whitelist` and
/// `Blacklist`: each is its scope's name with the first letter capitalised,
/// so distinct scopes have distinct labels.
pub proof fn lemma_scope_labels(a: Scope, b: Scope)
    ensures
        scope_label(Scope::Whitelist) == "Whitelist"@,
        scope_label(Scope::Blacklist) == "Blacklist"@,
        scope_label(a).len() == a.name_view().len(),
        scope_label(a).drop_first() == a.name_view().drop_first(),
        scope_label(a)[0] as int == a.name_view()[0] as int - 32,
        scope_label(a) == scope_label(b) ==> a == b,
{
    reveal_strlit("Whitelist");
    reveal_strlit("Blacklist");
    reveal_strlit("whitelist");
    reveal_strlit("blacklist");
    assert("Whitelist"@.drop_first() =~= "whitelist"@.drop_first());
    assert("Blacklist"@.drop_first() =~= "blacklist"@.drop_first());
    assert("Whitelist"@[0] != "Blacklist"@[0]);
}

/// A `highlight pattern` invocation passes the completeness check whenever
/// the options that are read exist: three options for `add` or `remove`, two
/// for `clear`; with fewer it fails.
pub proof fn lemma_pattern_options_complete(o: Seq<CommandOption>)
    ensures
        o.len() > 2 ==> pattern_options_complete(o),
        o.len() > 1 && o[1].name@ == "clear"@ ==> pattern_options_complete(o),
        o.len() <= 1 ==> !pattern_options_complete(o),
        o.len() == 2 && o[1].name@ != "clear"@ ==> !pattern_options_complete(o),
{
}

/// A `highlight channel` invocation passes the completeness check whenever
/// the options that are read exist and its scope text is `whitelist` or
/// `blacklist`: `clear` needs two options; a third option that holds no
/// channel needs nothing more; a channel and a text need a fourth option.
pub proof fn lemma_channel_options_complete(o: Seq<CommandOption>)
    ensures
        o.len() > 1 && o[1].name@ == "clear"@ ==> channel_options_complete(o),
        o.len() > 2 && !(o[2].value is Channel) ==> channel_options_complete(o),
        o.len() > 3 && !(o[3].value is String) ==> channel_options_complete(o),
        o.len() > 3 ==> ((o[3].value matches OptionValue::String(t) && (t@ == "whitelist"@ || t@
            == "blacklist"@)) ==> channel_options_complete(o)),
        o.len() > 3 && o[2].value is Channel && o[1].name@ != "clear"@ ==> ((
        o[3].value matches OptionValue::String(t) && t@ != "whitelist"@ && t@ != "blacklist"@)
            ==> !channel_options_complete(o)),
        o.len() <= 1 ==> !channel_options_complete(o),
{
    lemma_scope_round_trip(Scope::Whitelist, "whitelist"@);
    lemma_scope_round_trip(Scope::Blacklist, "blacklist"@);
    if o.len() > 3 {
        if let OptionValue::String(t) = o[3].value {
            lemma_scope_round_trip(Scope::Whitelist, t@);
            lemma_scope_round_trip(Scope::Blacklist, t@);
        }
    }
}

/// Every scope choice that the `highlight channel` subcommands offer passes
/// the completeness check when sent with a channel.
pub proof fn lemma_scope_choices_complete(c: CommandModel, o: Seq<CommandOption>, k: int, j: int)
    requires
        is_highlight_model(c),
        0 <= k < 2,
        0 <= j < 2,
        o.len() > 3,
        o[2].value is Channel,
        o[3].value matches OptionValue::String(t) && t@
            == c.options@[0].options@[k].options@[1].choices@[j].value@,
    ensures
        channel_options_complete(o),
{
    lemma_scope_round_trip(Scope::Whitelist, "whitelist"@);
    lemma_scope_round_trip(Scope::Blacklist, "blacklist"@);
    assert(j == 0 || j == 1);
}

} // verus!
