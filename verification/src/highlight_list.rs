//! The `highlight list` answer: the stored highlight rows of a user, read
//! back into patterns and channels, and the embed that lists them.

use vstd::prelude::*;
use crate::highlight::{
    lemma_pattern_type_round_trip, lemma_scope_round_trip, pattern_type_from_name, scope_from_name, PatternType, Scope,
    CHANNEL_LIMIT, PATTERN_LIMIT,
};
use crate::interaction::{Embed, EmbedField, ResponseData};
use crate::text::{
    decimal, join, join_lines, lemma_parse_decimal, parse_id, parse_id_spec, u64_to_decimal,
};

verus! {

/// A highlight pattern of a user.
pub struct HighlightPattern {
    pub pattern: String,
    pub pattern_type: PatternType,
}

impl View for HighlightPattern {
    type V = (Seq<char>, PatternType);

    open spec fn view(&self) -> (Seq<char>, PatternType) {
        (self.pattern@, self.pattern_type)
    }
}

/// A channel that a user scoped their highlights to.
#[derive(PartialEq, Eq, Structural, Clone, Copy, Debug)]
pub struct HighlightChannel {
    pub channel_id: u64,
    pub scope: Scope,
}

/// The channel that a stored row `(channel id, scope)` denotes, if both
/// columns are valid.
pub open spec fn channel_from_row_spec(id: Seq<char>, scope: Seq<char>) -> Option<HighlightChannel> {
    match (parse_id_spec(id), scope_from_name(scope)) {
        (Some(channel_id), Some(scope)) => Some(HighlightChannel { channel_id, scope }),
        _ => None,
    }
}

/// The channels of the valid rows among `rows`, in row order.
pub open spec fn channels_from_rows_spec(rows: Seq<(String, String)>) -> Seq<HighlightChannel>
    decreases rows.len(),
{
    if rows.len() == 0 {
        Seq::empty()
    } else {
        let rest = channels_from_rows_spec(rows.drop_last());
        match channel_from_row_spec(rows.last().0@, rows.last().1@) {
            Some(c) => rest.push(c),
            None => rest,
        }
    }
}

/// The pattern that a stored row `(pattern, pattern type)` denotes, if the
/// type is valid.
pub open spec fn pattern_from_row_spec(pattern: Seq<char>, kind: Seq<char>) -> Option<(Seq<char>, PatternType)> {
    match pattern_type_from_name(kind) {
        Some(t) => Some((pattern, t)),
        None => None,
    }
}

/// The patterns of the valid rows among `rows`, in row order.
pub open spec fn patterns_from_rows_spec(rows: Seq<(String, String)>) -> Seq<(Seq<char>, PatternType)>
    decreases rows.len(),
{
    if rows.len() == 0 {
        Seq::empty()
    } else {
        let rest = patterns_from_rows_spec(rows.drop_last());
        match pattern_from_row_spec(rows.last().0@, rows.last().1@) {
            Some(p) => rest.push(p),
            None => rest,
        }
    }
}

/// Reads one stored channel row.
pub fn channel_from_row(id: &str, scope: &str) -> (r: Option<HighlightChannel>)
    ensures
        r == channel_from_row_spec(id@, scope@),
{
    let channel_id = match parse_id(id) {
        Some(c) => c,
        None => return None,
    };
    match Scope::try_from(scope) {
        Ok(scope) => Some(HighlightChannel { channel_id, scope }),
        Err(_) => None,
    }
}

/// Reads the stored channel rows, skipping the invalid ones.
pub fn channels_from_rows(rows: &Vec<(String, String)>) -> (r: Vec<HighlightChannel>)
    ensures
        r@ == channels_from_rows_spec(rows@),
{
    let mut r: Vec<HighlightChannel> = Vec::new();
    let mut i: usize = 0;
    while i < rows.len()
        invariant
            i <= rows@.len(),
            r@ == channels_from_rows_spec(rows@.take(i as int)),
        decreases rows@.len() - i,
    {
        assert(rows@.take(i + 1).drop_last() =~= rows@.take(i as int));
        assert(rows@.take(i + 1).last() == rows@[i as int]);
        match channel_from_row(rows[i].0.as_str(), rows[i].1.as_str()) {
            Some(c) => r.push(c),
            None => {},
        }
        i = i + 1;
    }
    assert(rows@.take(rows@.len() as int) =~= rows@);
    r
}

/// Reads one stored pattern row.
pub fn pattern_from_row(pattern: &String, kind: &str) -> (r: Option<HighlightPattern>)
    ensures
        match pattern_from_row_spec(pattern@, kind@) {
            Some(v) => r matches Some(p) && p@ == v,
            None => r is None,
        },
{
    match PatternType::try_from(kind) {
        Ok(pattern_type) => Some(HighlightPattern { pattern: pattern.clone(), pattern_type }),
        Err(_) => None,
    }
}

/// Reads the stored pattern rows, skipping the invalid ones.
pub fn patterns_from_rows(rows: &Vec<(String, String)>) -> (r: Vec<HighlightPattern>)
    ensures
        r@.map_values(|p: HighlightPattern| p@) == patterns_from_rows_spec(rows@),
{
    let mut r: Vec<HighlightPattern> = Vec::new();
    let mut i: usize = 0;
    while i < rows.len()
        invariant
            i <= rows@.len(),
            r@.map_values(|p: HighlightPattern| p@) == patterns_from_rows_spec(rows@.take(i as int)),
        decreases rows@.len() - i,
    {
        assert(rows@.take(i + 1).drop_last() =~= rows@.take(i as int));
        assert(rows@.take(i + 1).last() == rows@[i as int]);
        let ghost before = r@;
        match pattern_from_row(&rows[i].0, rows[i].1.as_str()) {
            Some(p) => {
                r.push(p);
                assert(r@.map_values(|p: HighlightPattern| p@) =~= before.map_values(
                    |p: HighlightPattern| p@,
                ).push(p@));
            },
            None => {},
        }
        i = i + 1;
    }
    assert(rows@.take(rows@.len() as int) =~= rows@);
    r
}

/// A stored channel row written from a channel reads back as that channel.
pub proof fn lemma_channel_row_round_trip(c: HighlightChannel)
    requires
        c.channel_id != 0,
    ensures
        channel_from_row_spec(decimal(c.channel_id as nat), c.scope.name_view()) == Some(c),
{
    lemma_parse_decimal(c.channel_id);
    lemma_scope_round_trip(c.scope, c.scope.name_view());
}

/// The line that lists a pattern: the pattern in code marks, then its type.
pub open spec fn pattern_line(p: (Seq<char>, PatternType)) -> Seq<char> {
    "`"@ + p.0 + "` ("@ + p.1.name_view() + ")"@
}

/// The line that lists a channel: its mention.
pub open spec fn channel_line(c: HighlightChannel) -> Seq<char> {
    "<#"@ + decimal(c.channel_id as nat) + ">"@
}

/// The channels of `channels` with scope `scope`, in order.
pub open spec fn in_scope(channels: Seq<HighlightChannel>, scope: Scope) -> Seq<HighlightChannel>
    decreases channels.len(),
{
    if channels.len() == 0 {
        Seq::empty()
    } else {
        let rest = in_scope(channels.drop_last(), scope);
        if channels.last().scope == scope {
            rest.push(channels.last())
        } else {
            rest
        }
    }
}

/// The lines joined by line breaks, or `empty` when there is none.
pub open spec fn listing(lines: Seq<Seq<char>>, empty: Seq<char>) -> Seq<char> {
    if lines.len() == 0 {
        empty
    } else {
        join(lines, "\n"@)
    }
}

/// A field title with a count against its limit, such as `Patterns (3/20)`.
pub open spec fn count_label(title: Seq<char>, n: nat, limit: nat) -> Seq<char> {
    title + " ("@ + decimal(n) + "/"@ + decimal(limit) + ")"@
}

/// The footer that names the listed user.
pub open spec fn footer_text(name: Seq<char>, id: u64) -> Seq<char> {
    "@"@ + name + "  \u{2022}  "@ + decimal(id as nat)
}

/// Whether `f` has the given name, value and inline mark.
pub open spec fn field_is(f: EmbedField, name: Seq<char>, value: Seq<char>, inline: bool) -> bool {
    f.name@ == name && f.value@ == value && f.inline == inline
}

/// Whether `e` is the embed that lists the highlights `patterns` and
/// `channels` of the user `name` with id `id`: a field of patterns, then one
/// of whitelisted and one of blacklisted channels, each titled with its count
/// and limit, and a footer naming the user.
pub open spec fn is_highlight_list_embed(
    e: Embed,
    name: Seq<char>,
    id: u64,
    patterns: Seq<(Seq<char>, PatternType)>,
    channels: Seq<HighlightChannel>,
) -> bool {
    let white = in_scope(channels, Scope::Whitelist);
    let black = in_scope(channels, Scope::Blacklist);
    &&& e.title is None
    &&& e.description is None
    &&& e.thumbnail is None
    &&& e.fields@.len() == 3
    &&& field_is(
        e.fields@[0],
        count_label("Patterns"@, patterns.len(), PATTERN_LIMIT as nat),
        listing(patterns.map_values(|p: (Seq<char>, PatternType)| pattern_line(p)), "No patterns set."@),
        false,
    )
    &&& field_is(
        e.fields@[1],
        count_label("Whitelisted Channels"@, white.len(), CHANNEL_LIMIT as nat),
        listing(white.map_values(|c: HighlightChannel| channel_line(c)), "No whitelisted channels."@),
        true,
    )
    &&& field_is(
        e.fields@[2],
        count_label("Blacklisted Channels"@, black.len(), CHANNEL_LIMIT as nat),
        listing(black.map_values(|c: HighlightChannel| channel_line(c)), "No blacklisted channels."@),
        true,
    )
    &&& e.footer matches Some(f) && f@ == footer_text(name, id)
}

/// The channels of `channels` with scope `scope`, in order.
pub fn channels_in_scope(channels: &Vec<HighlightChannel>, scope: Scope) -> (r: Vec<HighlightChannel>)
    ensures
        r@ == in_scope(channels@, scope),
{
    let mut r: Vec<HighlightChannel> = Vec::new();
    let mut i: usize = 0;
    while i < channels.len()
        invariant
            i <= channels@.len(),
            r@ == in_scope(channels@.take(i as int), scope),
        decreases channels@.len() - i,
    {
        assert(channels@.take(i + 1).drop_last() =~= channels@.take(i as int));
        assert(channels@.take(i + 1).last() == channels@[i as int]);
        if channels[i].scope == scope {
            r.push(channels[i]);
        }
        i = i + 1;
    }
    assert(channels@.take(channels@.len() as int) =~= channels@);
    r
}

/// The lines that list `patterns`, one per pattern.
fn pattern_lines(patterns: &Vec<HighlightPattern>) -> (r: Vec<String>)
    ensures
        r@.map_values(|s: String| s@) == patterns@.map_values(|p: HighlightPattern| p@).map_values(
            |p: (Seq<char>, PatternType)| pattern_line(p),
        ),
{
    let mut r: Vec<String> = Vec::new();
    let mut i: usize = 0;
    while i < patterns.len()
        invariant
            i <= patterns@.len(),
            r@.len() == i,
            forall|k: int| 0 <= k < i ==> (#[trigger] r@[k])@ == pattern_line(patterns@[k]@),
        decreases patterns@.len() - i,
    {
        let mut line = "`".to_owned();
        line.append(patterns[i].pattern.as_str());
        line.append("` (");
        line.append(patterns[i].pattern_type.to_string().as_str());
        line.append(")");
        r.push(line);
        i = i + 1;
    }
    assert(r@.map_values(|s: String| s@) =~= patterns@.map_values(|p: HighlightPattern| p@).map_values(
        |p: (Seq<char>, PatternType)| pattern_line(p),
    ));
    r
}

/// The lines that list `channels`, one per channel.
fn channel_lines(channels: &Vec<HighlightChannel>) -> (r: Vec<String>)
    ensures
        r@.map_values(|s: String| s@) == channels@.map_values(|c: HighlightChannel| channel_line(c)),
{
    let mut r: Vec<String> = Vec::new();
    let mut i: usize = 0;
    while i < channels.len()
        invariant
            i <= channels@.len(),
            r@.len() == i,
            forall|k: int| 0 <= k < i ==> (#[trigger] r@[k])@ == channel_line(channels@[k]),
        decreases channels@.len() - i,
    {
        let mut line = "<#".to_owned();
        line.append(u64_to_decimal(channels[i].channel_id).as_str());
        line.append(">");
        r.push(line);
        i = i + 1;
    }
    assert(r@.map_values(|s: String| s@) =~= channels@.map_values(|c: HighlightChannel| channel_line(c)));
    r
}

/// The lines joined by line breaks, or `empty` when there is none.
fn listing_text(lines: &Vec<String>, empty: &str) -> (r: String)
    ensures
        r@ == listing(lines@.map_values(|s: String| s@), empty@),
{
    if lines.len() == 0 {
        empty.to_owned()
    } else {
        join_lines(lines, "\n")
    }
}

/// A field title with a count against its limit.
fn count_label_text(title: &str, n: u64, limit: u64) -> (r: String)
    ensures
        r@ == count_label(title@, n as nat, limit as nat),
{
    let mut r = title.to_owned();
    r.append(" (");
    r.append(u64_to_decimal(n).as_str());
    r.append("/");
    r.append(u64_to_decimal(limit).as_str());
    r.append(")");
    r
}

/// Builds the embed that lists the highlight patterns and channel scopes of
/// the user `user_name` with id `user_id`.
pub fn build_highlight_list_embed(
    user_name: &String,
    user_id: u64,
    patterns: &Vec<HighlightPattern>,
    channels: &Vec<HighlightChannel>,
) -> (e: Embed)
    ensures
        is_highlight_list_embed(
            e,
            user_name@,
            user_id,
            patterns@.map_values(|p: HighlightPattern| p@),
            channels@,
        ),
{
    let white = channels_in_scope(channels, Scope::Whitelist);
    let black = channels_in_scope(channels, Scope::Blacklist);
    let pattern_field = EmbedField {
        name: count_label_text("Patterns", patterns.len() as u64, PATTERN_LIMIT),
        value: listing_text(&pattern_lines(patterns), "No patterns set."),
        inline: false,
    };
    let white_field = EmbedField {
        name: count_label_text("Whitelisted Channels", white.len() as u64, CHANNEL_LIMIT),
        value: listing_text(&channel_lines(&white), "No whitelisted channels."),
        inline: true,
    };
    let black_field = EmbedField {
        name: count_label_text("Blacklisted Channels", black.len() as u64, CHANNEL_LIMIT),
        value: listing_text(&channel_lines(&black), "No blacklisted channels."),
        inline: true,
    };
    let mut footer = "@".to_owned();
    footer.append(user_name.as_str());
    footer.append("  \u{2022}  ");
    footer.append(u64_to_decimal(user_id).as_str());
    let mut fields = Vec::new();
    fields.push(pattern_field);
    fields.push(white_field);
    fields.push(black_field);
    Embed { title: None, description: None, thumbnail: None, fields, footer: Some(footer) }
}

/// The answer to `highlight list`: one embed listing the valid stored rows
/// of the user, patterns and channels each in row order.
pub fn list_highlights_response(
    user_name: &String,
    user_id: u64,
    channel_rows: &Vec<(String, String)>,
    pattern_rows: &Vec<(String, String)>,
) -> (r: ResponseData)
    ensures
        r.content is None,
        !r.ephemeral,
        r.embeds@.len() == 1,
        is_highlight_list_embed(
            r.embeds@[0],
            user_name@,
            user_id,
            patterns_from_rows_spec(pattern_rows@),
            channels_from_rows_spec(channel_rows@),
        ),
{
    let channels = channels_from_rows(channel_rows);
    let patterns = patterns_from_rows(pattern_rows);
    let embed = build_highlight_list_embed(user_name, user_id, &patterns, &channels);
    let mut embeds = Vec::new();
    embeds.push(embed);
    ResponseData { content: None, embeds, ephemeral: false }
}

/// Every channel is listed under exactly one of the two scopes.
pub proof fn lemma_scopes_partition(channels: Seq<HighlightChannel>)
    ensures
        in_scope(channels, Scope::Whitelist).len() + in_scope(channels, Scope::Blacklist).len()
            == channels.len(),
    decreases channels.len(),
{
    if channels.len() > 0 {
        lemma_scopes_partition(channels.drop_last());
    }
}

/// A stored pattern row whose type column names a pattern type reads back as
/// that pattern with that type; the three stored type names are `exact`,
/// `wildcard` and `regex`.
pub proof fn lemma_pattern_row_round_trip(p: Seq<char>, t: PatternType)
    ensures
        pattern_from_row_spec(p, t.name_view()) == Some((p, t)),
        pattern_from_row_spec(p, "exact"@) == Some((p, PatternType::Exact)),
        pattern_from_row_spec(p, "wildcard"@) == Some((p, PatternType::Wildcard)),
        pattern_from_row_spec(p, "regex"@) == Some((p, PatternType::Regex)),
{
    lemma_pattern_type_round_trip(t, t.name_view());
    lemma_pattern_type_round_trip(PatternType::Exact, "exact"@);
    lemma_pattern_type_round_trip(PatternType::Wildcard, "wildcard"@);
    lemma_pattern_type_round_trip(PatternType::Regex, "regex"@);
}

/// A stored channel row with a non-zero decimal id and the scope name
/// `whitelist` or `blacklist` reads back as that channel in that scope; a row
/// with id zero reads back as nothing.
pub proof fn lemma_channel_row_names(id: u64, scope: Seq<char>)
    ensures
        id != 0 ==> channel_from_row_spec(decimal(id as nat), "whitelist"@) == Some(
            HighlightChannel { channel_id: id, scope: Scope::Whitelist },
        ),
        id != 0 ==> channel_from_row_spec(decimal(id as nat), "blacklist"@) == Some(
            HighlightChannel { channel_id: id, scope: Scope::Blacklist },
        ),
        channel_from_row_spec("0"@, scope) is None,
{
    lemma_parse_decimal(id);
    lemma_scope_round_trip(Scope::Whitelist, "whitelist"@);
    lemma_scope_round_trip(Scope::Blacklist, "blacklist"@);
    reveal_strlit("0");
    lemma_parse_decimal(0);
    assert(decimal(0) =~= "0"@);
}

/// Reading rows keeps every valid row, in order, and nothing else: no rows
/// read as no channels, and one more row adds its channel at the end exactly
/// when it is valid.
pub proof fn lemma_channels_from_rows_push(rows: Seq<(String, String)>, row: (String, String))
    ensures
        channels_from_rows_spec(Seq::empty()) == Seq::<HighlightChannel>::empty(),
        channels_from_rows_spec(rows.push(row)) == match channel_from_row_spec(row.0@, row.1@) {
            Some(c) => channels_from_rows_spec(rows).push(c),
            None => channels_from_rows_spec(rows),
        },
        channel_from_row_spec(row.0@, row.1@) matches Some(c) ==> channels_from_rows_spec(
            seq![row],
        ) == seq![c],
{
    assert(rows.push(row).drop_last() =~= rows);
    assert(seq![row].drop_last() =~= Seq::<(String, String)>::empty());
}

/// Reading pattern rows keeps every valid row, in order, and nothing else.
pub proof fn lemma_patterns_from_rows_push(rows: Seq<(String, String)>, row: (String, String))
    ensures
        patterns_from_rows_spec(Seq::empty()) == Seq::<(Seq<char>, PatternType)>::empty(),
        patterns_from_rows_spec(rows.push(row)) == match pattern_from_row_spec(row.0@, row.1@) {
            Some(p) => patterns_from_rows_spec(rows).push(p),
            None => patterns_from_rows_spec(rows),
        },
        pattern_from_row_spec(row.0@, row.1@) matches Some(p) ==> patterns_from_rows_spec(
            seq![row],
        ) == seq![p],
{
    assert(rows.push(row).drop_last() =~= rows);
    assert(seq![row].drop_last() =~= Seq::<(String, String)>::empty());
}

/// A channel is listed under a scope exactly when it has that scope: one
/// more channel is appended to the listing of its own scope and leaves the
/// other scope's listing as it was.
pub proof fn lemma_in_scope_push(channels: Seq<HighlightChannel>, c: HighlightChannel, scope: Scope)
    ensures
        in_scope(Seq::empty(), scope) == Seq::<HighlightChannel>::empty(),
        c.scope == scope ==> in_scope(channels.push(c), scope) == in_scope(channels, scope).push(c),
        c.scope != scope ==> in_scope(channels.push(c), scope) == in_scope(channels, scope),
{
    assert(channels.push(c).drop_last() =~= channels);
}

/// When every channel has scope `scope`, all of them are listed under it, in
/// order, and none under the other scope.
pub proof fn lemma_in_scope_uniform(channels: Seq<HighlightChannel>, scope: Scope, other: Scope)
    requires
        forall|i: int| 0 <= i < channels.len() ==> (#[trigger] channels[i]).scope == scope,
        other != scope,
    ensures
        in_scope(channels, scope) == channels,
        in_scope(channels, other) == Seq::<HighlightChannel>::empty(),
    decreases channels.len(),
{
    if channels.len() > 0 {
        let rest = channels.drop_last();
        assert forall|i: int| 0 <= i < rest.len() implies (#[trigger] rest[i]).scope == scope by {
            assert(rest[i] == channels[i]);
        }
        lemma_in_scope_uniform(rest, scope, other);
        assert(channels.last() == channels[channels.len() - 1]);
        assert(rest.push(channels.last()) =~= channels);
    }
}

/// When every listed channel is whitelisted, the whitelist field counts all
/// of them and the blacklist field says that there is none; and the other way
/// round.
pub proof fn lemma_list_embed_uniform_scope(
    e: Embed,
    name: Seq<char>,
    id: u64,
    patterns: Seq<(Seq<char>, PatternType)>,
    channels: Seq<HighlightChannel>,
)
    requires
        is_highlight_list_embed(e, name, id, patterns, channels),
    ensures
        (forall|i: int| 0 <= i < channels.len() ==> (#[trigger] channels[i]).scope == Scope::Whitelist)
            ==> e.fields@[1].name@ == count_label("Whitelisted Channels"@, channels.len(), 40)
            && e.fields@[2].name@ == count_label("Blacklisted Channels"@, 0, 40)
            && e.fields@[2].value@ == "No blacklisted channels."@,
        (forall|i: int| 0 <= i < channels.len() ==> (#[trigger] channels[i]).scope == Scope::Blacklist)
            ==> e.fields@[2].name@ == count_label("Blacklisted Channels"@, channels.len(), 40)
            && e.fields@[1].name@ == count_label("Whitelisted Channels"@, 0, 40)
            && e.fields@[1].value@ == "No whitelisted channels."@,
        patterns.len() == 0 ==> e.fields@[0].value@ == "No patterns set."@,
{
    if forall|i: int| 0 <= i < channels.len() ==> (#[trigger] channels[i]).scope == Scope::Whitelist {
        lemma_in_scope_uniform(channels, Scope::Whitelist, Scope::Blacklist);
    }
    if forall|i: int| 0 <= i < channels.len() ==> (#[trigger] channels[i]).scope == Scope::Blacklist {
        lemma_in_scope_uniform(channels, Scope::Blacklist, Scope::Whitelist);
    }
}

} // verus!
