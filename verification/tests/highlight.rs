use magnolia::highlight::{
    channel_options_are_complete, error_response, highlight_model, listed_user, manage_highlight_channels,
    manage_highlight_patterns, pattern_options_are_complete, route_highlight, ChannelAction,
    HighlightError, HighlightRoute, NameError, PatternAction, PatternType, Scope,
};
use magnolia::highlight_list::{
    build_highlight_list_embed, channel_from_row, channels_from_rows, list_highlights_response,
    pattern_from_row, patterns_from_rows, HighlightChannel, HighlightPattern,
};
use magnolia::interaction::{ChannelKind, CommandOption, OptionKind, OptionValue};

fn opt(name: &str, value: OptionValue) -> CommandOption {
    CommandOption { name: name.to_string(), value }
}

fn text(s: &str) -> OptionValue {
    OptionValue::String(s.to_string())
}

fn row(a: &str, b: &str) -> (String, String) {
    (a.to_string(), b.to_string())
}

#[test]
fn scope_and_pattern_type_names() {
    for s in [Scope::Whitelist, Scope::Blacklist] {
        assert!(matches!(Scope::try_from(&s.to_string()), Ok(p) if p == s));
        let c = s.as_choice();
        assert!(matches!(Scope::try_from(&c.value), Ok(p) if p == s));
    }
    assert_eq!(Scope::Whitelist.as_choice().name, "Whitelist");
    assert_eq!(Scope::Blacklist.to_string(), "blacklist");
    for p in [PatternType::Exact, PatternType::Wildcard, PatternType::Regex] {
        assert!(matches!(PatternType::try_from(&p.to_string()), Ok(q) if q == p));
    }
    match Scope::try_from("Whitelist") {
        Err(NameError::UnknownScope(t)) => assert_eq!(t, "Whitelist"),
        _ => panic!("expected an unknown scope"),
    }
    match PatternType::try_from("glob") {
        Err(NameError::UnknownPatternType(t)) => assert_eq!(t, "glob"),
        _ => panic!("expected an unknown pattern type"),
    }
}

#[test]
fn highlight_model_shape() {
    let m = highlight_model();
    assert_eq!(m.name, "highlight");
    let names: Vec<&str> = m.options.iter().map(|o| o.name.as_str()).collect();
    assert_eq!(names, ["channel", "pattern", "list", "erase"]);
    for o in &m.options {
        assert!(route_highlight(&vec![opt(&o.name, OptionValue::Other)]).is_some());
    }
    let add = &m.options[0].options[0];
    assert_eq!(add.kind, OptionKind::SubCommand);
    assert_eq!(add.options[0].kind, OptionKind::Channel);
    assert_eq!(add.options[0].channel_types, vec![ChannelKind::GuildText]);
    assert!(add.options[0].required);
    let scopes: Vec<&str> = add.options[1].choices.iter().map(|c| c.value.as_str()).collect();
    assert_eq!(scopes, ["whitelist", "blacklist"]);
    assert_eq!(m.options[1].options[2].name, "clear");
    assert!(m.options[1].options[2].options.is_empty());
    assert_eq!(m.options[2].options[0].kind, OptionKind::User);
    assert!(!m.options[3].options[0].required);
}

#[test]
fn routes_by_first_option() {
    let r = |n: &str| route_highlight(&vec![opt(n, OptionValue::Other)]);
    assert_eq!(r("channel"), Some(HighlightRoute::Channel));
    assert_eq!(r("pattern"), Some(HighlightRoute::Pattern));
    assert_eq!(r("list"), Some(HighlightRoute::List));
    assert_eq!(r("erase"), Some(HighlightRoute::Erase));
    assert_eq!(r("other"), None);
}

#[test]
fn channel_subcommands() {
    let base = |sub: &str, ch: OptionValue, sc: OptionValue| {
        vec![opt("channel", OptionValue::Other), opt(sub, OptionValue::Other), opt("channel", ch), opt("scope", sc)]
    };
    let add = base("add", OptionValue::Channel(5), text("whitelist"));
    assert!(channel_options_are_complete(&add));
    assert!(matches!(
        manage_highlight_channels(&add),
        Ok(ChannelAction::Add { channel: 5, scope: Scope::Whitelist })
    ));
    let remove = base("remove", OptionValue::Channel(6), text("blacklist"));
    assert!(matches!(
        manage_highlight_channels(&remove),
        Ok(ChannelAction::Remove { channel: 6, scope: Scope::Blacklist })
    ));
    let clear = vec![opt("channel", OptionValue::Other), opt("clear", OptionValue::Other)];
    assert!(channel_options_are_complete(&clear));
    assert!(matches!(manage_highlight_channels(&clear), Ok(ChannelAction::Clear)));
    let no_channel = vec![opt("channel", OptionValue::Other), opt("add", OptionValue::Other), opt("channel", text("x"))];
    assert!(channel_options_are_complete(&no_channel));
    assert!(matches!(manage_highlight_channels(&no_channel), Err(HighlightError::ExpectedChannelId)));
    let no_scope = base("add", OptionValue::Channel(5), OptionValue::Integer(3));
    assert!(matches!(manage_highlight_channels(&no_scope), Err(HighlightError::ExpectedScopeString)));
    let unknown = base("move", OptionValue::Channel(5), text("whitelist"));
    match manage_highlight_channels(&unknown) {
        Err(HighlightError::UnknownSubcommand(n)) => assert_eq!(n, "move"),
        _ => panic!("expected an unknown subcommand"),
    }
    assert!(!channel_options_are_complete(&base("add", OptionValue::Channel(5), text("nowhere"))));
    assert!(!channel_options_are_complete(&vec![opt("channel", OptionValue::Other), opt("add", OptionValue::Other)]));
    assert!(!channel_options_are_complete(&vec![opt("channel", OptionValue::Other)]));
}

#[test]
fn pattern_subcommands() {
    let with = |sub: &str, p: OptionValue| {
        vec![opt("pattern", OptionValue::Other), opt(sub, OptionValue::Other), opt("pattern", p)]
    };
    match manage_highlight_patterns(&with("add", text("rust*"))) {
        Ok(PatternAction::Add(p)) => assert_eq!(p, "rust*"),
        _ => panic!("expected add"),
    }
    match manage_highlight_patterns(&with("remove", text("x"))) {
        Ok(PatternAction::Remove(p)) => assert_eq!(p, "x"),
        _ => panic!("expected remove"),
    }
    let clear = vec![opt("pattern", OptionValue::Other), opt("clear", OptionValue::Other)];
    assert!(pattern_options_are_complete(&clear));
    assert!(matches!(manage_highlight_patterns(&clear), Ok(PatternAction::Clear)));
    assert!(matches!(
        manage_highlight_patterns(&with("add", OptionValue::Boolean(true))),
        Err(HighlightError::ExpectedPatternString)
    ));
    assert!(matches!(
        manage_highlight_patterns(&with("swap", text("x"))),
        Err(HighlightError::UnknownSubcommand(_))
    ));
    assert!(!pattern_options_are_complete(&vec![opt("pattern", OptionValue::Other), opt("add", OptionValue::Other)]));
}

#[test]
fn error_response_is_private() {
    let r = error_response();
    assert_eq!(r.content.as_deref(), Some("An error occurred while processing your request."));
    assert!(r.ephemeral);
    assert!(r.embeds.is_empty());
}

#[test]
fn rows_are_read_back() {
    assert_eq!(
        channel_from_row("123", "whitelist"),
        Some(HighlightChannel { channel_id: 123, scope: Scope::Whitelist })
    );
    assert_eq!(channel_from_row("0", "whitelist"), None);
    assert_eq!(channel_from_row("12", "grey"), None);
    let rows = vec![row("1", "whitelist"), row("abc", "blacklist"), row("2", "blacklist"), row("3", "")];
    assert_eq!(
        channels_from_rows(&rows),
        vec![
            HighlightChannel { channel_id: 1, scope: Scope::Whitelist },
            HighlightChannel { channel_id: 2, scope: Scope::Blacklist }
        ]
    );
    let p = pattern_from_row(&"hello".to_string(), "exact").expect("valid row");
    assert_eq!(p.pattern, "hello");
    assert_eq!(p.pattern_type, PatternType::Exact);
    assert!(pattern_from_row(&"hello".to_string(), "fuzzy").is_none());
    let ps = patterns_from_rows(&vec![row("a", "regex"), row("b", "bad"), row("c", "wildcard")]);
    assert_eq!(ps.len(), 2);
    assert_eq!(ps[1].pattern, "c");
}

#[test]
fn stored_channel_row_round_trip() {
    for c in [
        HighlightChannel { channel_id: 1, scope: Scope::Blacklist },
        HighlightChannel { channel_id: u64::MAX, scope: Scope::Whitelist },
    ] {
        let id = c.channel_id.to_string();
        let scope = c.scope.to_string();
        assert_eq!(channel_from_row(&id, &scope), Some(c));
    }
}

#[test]
fn list_embed_empty() {
    let e = build_highlight_list_embed(&"alice".to_string(), 42, &vec![], &vec![]);
    assert_eq!(e.fields.len(), 3);
    assert_eq!(e.fields[0].name, "Patterns (0/20)");
    assert_eq!(e.fields[0].value, "No patterns set.");
    assert!(!e.fields[0].inline);
    assert_eq!(e.fields[1].name, "Whitelisted Channels (0/40)");
    assert_eq!(e.fields[1].value, "No whitelisted channels.");
    assert!(e.fields[1].inline);
    assert_eq!(e.fields[2].name, "Blacklisted Channels (0/40)");
    assert_eq!(e.fields[2].value, "No blacklisted channels.");
    assert_eq!(e.footer.as_deref(), Some("@alice  \u{2022}  42"));
    assert!(e.title.is_none());
}

#[test]
fn list_embed_with_entries() {
    let patterns = vec![
        HighlightPattern { pattern: "rust".to_string(), pattern_type: PatternType::Exact },
        HighlightPattern { pattern: "ver*".to_string(), pattern_type: PatternType::Wildcard },
    ];
    let channels = vec![
        HighlightChannel { channel_id: 10, scope: Scope::Whitelist },
        HighlightChannel { channel_id: 20, scope: Scope::Blacklist },
        HighlightChannel { channel_id: 30, scope: Scope::Whitelist },
    ];
    let e = build_highlight_list_embed(&"bob".to_string(), 7, &patterns, &channels);
    assert_eq!(e.fields[0].name, "Patterns (2/20)");
    assert_eq!(e.fields[0].value, "`rust` (exact)\n`ver*` (wildcard)");
    assert_eq!(e.fields[1].name, "Whitelisted Channels (2/40)");
    assert_eq!(e.fields[1].value, "<#10>\n<#30>");
    assert_eq!(e.fields[2].name, "Blacklisted Channels (1/40)");
    assert_eq!(e.fields[2].value, "<#20>");
    assert_eq!(e.footer.as_deref(), Some("@bob  \u{2022}  7"));
}

#[test]
fn list_response_reads_rows() {
    let r = list_highlights_response(
        &"carol".to_string(),
        99,
        &vec![row("5", "blacklist"), row("oops", "whitelist")],
        &vec![row("x?", "regex")],
    );
    assert!(r.content.is_none());
    assert!(!r.ephemeral);
    assert_eq!(r.embeds.len(), 1);
    let e = &r.embeds[0];
    assert_eq!(e.fields[0].value, "`x?` (regex)");
    assert_eq!(e.fields[1].value, "No whitelisted channels.");
    assert_eq!(e.fields[2].value, "<#5>");
    assert_eq!(e.footer.as_deref(), Some("@carol  \u{2022}  99"));
}

#[test]
fn listed_user_prefers_user_option() {
    let nested = vec![opt("list", OptionValue::SubCommand(vec![opt("user", OptionValue::User(55))]))];
    assert_eq!(listed_user(&nested, 7), 55);
    let nested_empty = vec![opt("list", OptionValue::SubCommand(vec![]))];
    assert_eq!(listed_user(&nested_empty, 7), 7);
    let flat = vec![opt("list", OptionValue::Other), opt("user", OptionValue::User(66))];
    assert_eq!(listed_user(&flat, 7), 66);
    let flat_none = vec![opt("list", OptionValue::Other)];
    assert_eq!(listed_user(&flat_none, 7), 7);
    let not_user = vec![opt("list", OptionValue::SubCommand(vec![opt("user", text("x")), opt("user", OptionValue::User(9))]))];
    assert_eq!(listed_user(&not_user, 7), 7);
    let first = vec![opt("list", OptionValue::Other), opt("user", OptionValue::User(1)), opt("user", OptionValue::User(2))];
    assert_eq!(listed_user(&first, 7), 1);
}

#[test]
fn highlight_model_is_the_same_every_call() {
    let a = highlight_model();
    let b = highlight_model();
    assert_eq!(a.name, b.name);
    assert_eq!(a.options.len(), b.options.len());
    for (x, y) in a.options.iter().zip(b.options.iter()) {
        assert_eq!(x.name, y.name);
        assert_eq!(x.description, y.description);
        assert_eq!(x.options.len(), y.options.len());
        for (p, q) in x.options.iter().zip(y.options.iter()) {
            assert_eq!(p.name, q.name);
            assert_eq!(p.options.len(), q.options.len());
        }
    }
}
