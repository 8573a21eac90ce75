//! Plain-data forms of what the bot exchanges with Discord: the options of an
//! invoked command, the schema of a slash command, embeds and interaction
//! responses. The binary converts between these and the wire types.

use vstd::prelude::*;

verus! {

/// The value of one option of an invoked command.
pub enum OptionValue {
    String(String),
    Integer(i64),
    Boolean(bool),
    User(u64),
    Channel(u64),
    Role(u64),
    Mentionable(u64),
    Attachment(u64),
    /// The options of an invoked subcommand.
    SubCommand(Vec<CommandOption>),
    /// The invoked subcommand of a subcommand group.
    SubCommandGroup(Vec<CommandOption>),
    /// A value that no command of this bot reads (numbers, focused values).
    Other,
}

/// One option of an invoked command, by name and value.
pub struct CommandOption {
    pub name: String,
    pub value: OptionValue,
}

/// One fixed choice offered for a string option.
pub struct Choice {
    /// What the user sees.
    pub name: String,
    /// What the command receives.
    pub value: String,
}

/// The kinds of option that a command schema can declare.
#[derive(PartialEq, Eq, Structural, Clone, Copy, Debug)]
pub enum OptionKind {
    SubCommand,
    SubCommandGroup,
    String,
    Integer,
    Boolean,
    User,
    Channel,
    Role,
    Mentionable,
    Number,
    Attachment,
}

/// The kinds of channel that a channel option may be restricted to.
#[derive(PartialEq, Eq, Structural, Clone, Copy, Debug)]
pub enum ChannelKind {
    GuildText,
}

/// The schema of one option of a slash command.
pub struct OptionModel {
    pub kind: OptionKind,
    pub name: String,
    pub description: String,
    /// Whether the option is marked required (unmarked when false).
    pub required: bool,
    pub choices: Vec<Choice>,
    pub channel_types: Vec<ChannelKind>,
    /// The nested options of a subcommand or subcommand group.
    pub options: Vec<OptionModel>,
}

/// The `MANAGE_CHANNELS` permission bit.
pub const MANAGE_CHANNELS: u64 = 16;

/// The schema of a chat-input slash command.
pub struct CommandModel {
    pub name: String,
    pub description: String,
    /// Usable in guilds only and installed to guilds only.
    pub guild_only: bool,
    /// The permission bits a member needs by default.
    pub default_member_permissions: u64,
    pub options: Vec<OptionModel>,
}

/// One field of an embed.
pub struct EmbedField {
    pub name: String,
    pub value: String,
    pub inline: bool,
}

/// A message embed.
pub struct Embed {
    pub title: Option<String>,
    pub description: Option<String>,
    /// The file name of an attachment shown as thumbnail.
    pub thumbnail: Option<String>,
    pub fields: Vec<EmbedField>,
    pub footer: Option<String>,
}

/// The data of a response to an interaction.
pub struct ResponseData {
    pub content: Option<String>,
    pub embeds: Vec<Embed>,
    /// Whether only the invoking user sees the response.
    pub ephemeral: bool,
}

/// Whether `o` has the given kind, name, description and required mark.
pub open spec fn option_is(
    o: OptionModel,
    kind: OptionKind,
    name: Seq<char>,
    description: Seq<char>,
    required: bool,
) -> bool {
    &&& o.kind == kind
    &&& o.name@ == name
    &&& o.description@ == description
    &&& o.required == required
}

/// Whether `c` has the given name and value.
pub open spec fn choice_is(c: Choice, name: Seq<char>, value: Seq<char>) -> bool {
    c.name@ == name && c.value@ == value
}

/// Whether `o` has no choices, no channel restriction and no nested options.
pub open spec fn option_is_plain(o: OptionModel) -> bool {
    o.choices@.len() == 0 && o.channel_types@.len() == 0 && o.options@.len() == 0
}

/// A new option schema of the given kind, name and description, not required,
/// with no choices, channel restriction or nested options.
pub fn new_option(kind: OptionKind, name: &str, description: &str) -> (o: OptionModel)
    ensures
        option_is(o, kind, name@, description@, false),
        option_is_plain(o),
{
    OptionModel {
        kind,
        name: name.to_owned(),
        description: description.to_owned(),
        required: false,
        choices: Vec::new(),
        channel_types: Vec::new(),
        options: Vec::new(),
    }
}

/// A choice with the given name and value.
pub fn new_choice(name: &str, value: &str) -> (c: Choice)
    ensures
        choice_is(c, name@, value@),
{
    Choice { name: name.to_owned(), value: value.to_owned() }
}

/// A guild-only chat-input command that needs `MANAGE_CHANNELS` by default.
pub fn guild_command(name: &str, description: &str, options: Vec<OptionModel>) -> (c: CommandModel)
    ensures
        c.name@ == name@,
        c.description@ == description@,
        c.guild_only,
        c.default_member_permissions == MANAGE_CHANNELS,
        c.options@ == options@,
{
    CommandModel {
        name: name.to_owned(),
        description: description.to_owned(),
        guild_only: true,
        default_member_permissions: MANAGE_CHANNELS,
        options,
    }
}

/// A response that carries only the text `content`.
pub fn text_response(content: &str, ephemeral: bool) -> (r: ResponseData)
    ensures
        r.content matches Some(c) && c@ == content@,
        r.embeds@.len() == 0,
        r.ephemeral == ephemeral,
{
    ResponseData { content: Some(content.to_owned()), embeds: Vec::new(), ephemeral }
}

/// Whether `i` is the index of the first option named `name`.
pub open spec fn first_option_named(options: Seq<CommandOption>, name: Seq<char>, i: int) -> bool {
    &&& 0 <= i < options.len()
    &&& options[i].name@ == name
    &&& forall|j: int| 0 <= j < i ==> options[j].name@ != name
}

/// The index of the first option named `name`, if there is one.
pub open spec fn first_named(options: Seq<CommandOption>, name: Seq<char>) -> Option<int> {
    if exists|i: int| first_option_named(options, name, i) {
        Some(choose|i: int| first_option_named(options, name, i))
    } else {
        None
    }
}

/// There is at most one first option of a name.
pub proof fn lemma_first_option_unique(options: Seq<CommandOption>, name: Seq<char>, i: int, j: int)
    requires
        first_option_named(options, name, i),
        first_option_named(options, name, j),
    ensures
        i == j,
{
    if i < j {
        assert(options[i].name@ != name);
    } else if j < i {
        assert(options[j].name@ != name);
    }
}

/// Finds the first option named `name`, as `iter().find` does.
pub fn find_option(options: &Vec<CommandOption>, name: &str) -> (r: Option<usize>)
    ensures
        match r {
            Some(i) => first_named(options@, name@) == Some(i as int),
            None => first_named(options@, name@) is None,
        },
{
    let target = name.to_owned();
    let mut i: usize = 0;
    while i < options.len()
        invariant
            i <= options.len(),
            target@ == name@,
            forall|j: int| 0 <= j < i ==> options@[j].name@ != name@,
        decreases options.len() - i,
    {
        if options[i].name == target {
            proof {
                assert(first_option_named(options@, name@, i as int));
                let c = choose|k: int| first_option_named(options@, name@, k);
                lemma_first_option_unique(options@, name@, i as int, c);
            }
            return Some(i);
        }
        i = i + 1;
    }
    None
}

/// Whether two choices have the same name and value.
pub open spec fn same_choice(a: Choice, b: Choice) -> bool {
    a.name@ == b.name@ && a.value@ == b.value@
}

/// Whether two option schemas agree field by field, down to `depth` levels
/// of nested options (with nothing nested below that).
pub open spec fn same_option(a: OptionModel, b: OptionModel, depth: nat) -> bool
    decreases depth,
{
    &&& a.kind == b.kind
    &&& a.name@ == b.name@
    &&& a.description@ == b.description@
    &&& a.required == b.required
    &&& a.choices@.len() == b.choices@.len()
    &&& forall|i: int| 0 <= i < a.choices@.len() ==> same_choice(#[trigger] a.choices@[i], b.choices@[i])
    &&& a.channel_types@ == b.channel_types@
    &&& a.options@.len() == b.options@.len()
    &&& if depth == 0 {
        a.options@.len() == 0
    } else {
        forall|i: int|
            0 <= i < a.options@.len() ==> same_option(
                #[trigger] a.options@[i],
                b.options@[i],
                (depth - 1) as nat,
            )
    }
}

/// Whether two command schemas agree field by field, with options nested at
/// most three levels deep (groups, subcommands, their options).
pub open spec fn same_command(a: CommandModel, b: CommandModel) -> bool {
    &&& a.name@ == b.name@
    &&& a.description@ == b.description@
    &&& a.guild_only == b.guild_only
    &&& a.default_member_permissions == b.default_member_permissions
    &&& a.options@.len() == b.options@.len()
    &&& forall|i: int| 0 <= i < a.options@.len() ==> same_option(#[trigger] a.options@[i], b.options@[i], 2)
}

} // verus!
