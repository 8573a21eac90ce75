use magnolia::config_command::{
    attachment_name, config_model, requested_file_type, ConfigCommandError, FileType,
};
use magnolia::devforum::{devforum_model, info_embed, posted_response};
use magnolia::dispatch::{
    command_for_name, event_action, is_validate_config, models, CommandKind, EventAction,
    EventKind, InteractionKind,
};
use magnolia::faq::{answer_content, faq_model, plan_faq, FaqError, FaqPlan};
use magnolia::interaction::{find_option, CommandOption, OptionKind, OptionValue, MANAGE_CHANNELS};
use magnolia::settings::{config_path_or_default, FaqConfig, FaqEntry};

fn opt(name: &str, value: OptionValue) -> CommandOption {
    CommandOption { name: name.to_string(), value }
}

fn text(s: &str) -> OptionValue {
    OptionValue::String(s.to_string())
}

fn faq_config() -> FaqConfig {
    FaqConfig {
        entries: vec![
            FaqEntry { label: "Rules".to_string(), value: "rules".to_string() },
            FaqEntry { label: "Help".to_string(), value: "help".to_string() },
            FaqEntry { label: "Rules again".to_string(), value: "rules".to_string() },
        ],
    }
}

#[test]
fn file_type_round_trip() {
    for ft in [FileType::Rust, FileType::Yaml] {
        assert_eq!(FileType::from_str(&ft.to_string()), Ok(ft));
    }
    assert_eq!(FileType::Rust.to_string(), "Rust");
    assert_eq!(FileType::Yaml.to_string(), "YAML");
    assert_eq!(FileType::from_str("yaml"), Err(ConfigCommandError::InvalidFileType));
}

#[test]
fn config_model_offers_both_file_types() {
    let m = config_model();
    assert_eq!(m.name, "config");
    assert!(m.guild_only);
    assert_eq!(m.default_member_permissions, MANAGE_CHANNELS);
    assert_eq!(m.options.len(), 1);
    let o = &m.options[0];
    assert_eq!(o.kind, OptionKind::String);
    assert_eq!(o.name, "file_type");
    assert!(o.required);
    let values: Vec<&str> = o.choices.iter().map(|c| c.value.as_str()).collect();
    assert_eq!(values, ["Rust", "YAML"]);
    for c in &o.choices {
        assert!(FileType::from_str(&c.value).is_ok());
    }
}

#[test]
fn config_invocation_picks_file_type() {
    assert_eq!(requested_file_type(&vec![opt("file_type", text("YAML"))]), Ok(FileType::Yaml));
    assert_eq!(requested_file_type(&vec![opt("file_type", text("Rust"))]), Ok(FileType::Rust));
    assert_eq!(
        requested_file_type(&vec![opt("file_type", text("toml"))]),
        Err(ConfigCommandError::InvalidFileType)
    );
    assert_eq!(
        requested_file_type(&vec![opt("file_type", OptionValue::Integer(1))]),
        Err(ConfigCommandError::ExpectedString)
    );
    assert_eq!(attachment_name(FileType::Rust), "magnolia.cfg.rs");
    assert_eq!(attachment_name(FileType::Yaml), "magnolia.cfg.yml");
}

#[test]
fn faq_choices_follow_entries() {
    let cfg = faq_config();
    let choices = cfg.faq_option_choices();
    assert_eq!(choices.len(), 3);
    assert_eq!(choices[1].name, "Help");
    assert_eq!(choices[1].value, "help");
    for c in &choices {
        let i = cfg.faq_option_response(&c.value).expect("choice found");
        assert_eq!(cfg.entries[i].value, c.value);
    }
    assert_eq!(cfg.faq_option_response("rules"), Some(0));
    assert_eq!(cfg.faq_option_response("nothing"), None);
}

#[test]
fn faq_model_lists_configured_choices() {
    let m = faq_model(&faq_config());
    assert_eq!(m.name, "faq");
    assert_eq!(m.options.len(), 2);
    assert_eq!(m.options[0].name, "query");
    assert!(m.options[0].required);
    assert_eq!(m.options[0].choices.len(), 3);
    assert_eq!(m.options[1].kind, OptionKind::User);
    assert_eq!(m.options[1].name, "mention");
    assert!(!m.options[1].required);
}

#[test]
fn faq_plan_cases() {
    let cfg = faq_config();
    let ok = plan_faq(&vec![opt("query", text("help"))], &cfg);
    assert!(matches!(ok, Ok(FaqPlan { entry: 1, mention: None })));
    let mentioned = plan_faq(&vec![opt("mention", OptionValue::User(77)), opt("query", text("rules"))], &cfg);
    assert!(matches!(mentioned, Ok(FaqPlan { entry: 0, mention: Some(77) })));
    assert!(matches!(plan_faq(&vec![], &cfg), Err(FaqError::MissingQuery)));
    assert!(matches!(
        plan_faq(&vec![opt("query", OptionValue::User(1))], &cfg),
        Err(FaqError::ExpectedStringQuery)
    ));
    match plan_faq(&vec![opt("query", text("nope"))], &cfg) {
        Err(FaqError::UnknownQuery(q)) => assert_eq!(q, "nope"),
        _ => panic!("expected an unknown query"),
    }
    assert!(matches!(
        plan_faq(&vec![opt("query", text("help")), opt("mention", text("x"))], &cfg),
        Err(FaqError::ExpectedUser)
    ));
}

#[test]
fn faq_answer_mentions_user() {
    assert_eq!(answer_content(None, None), None);
    assert_eq!(answer_content(Some("hi".to_string()), None), Some("hi".to_string()));
    assert_eq!(answer_content(None, Some(42)), Some("<@42>".to_string()));
    assert_eq!(
        answer_content(Some("See the rules.".to_string()), Some(123456789012345678)),
        Some("<@123456789012345678> See the rules.".to_string())
    );
}

#[test]
fn devforum_embed_mentions_role() {
    let m = devforum_model();
    assert_eq!(m.name, "devforum-self-role");
    assert!(m.options.is_empty());
    let e = info_embed(987654321);
    assert_eq!(e.title.as_deref(), Some("Developer Forum Member Role(s)"));
    let expected = format!(
        "Click the `Update Roles` button below to claim your developer forum member role if you meet the eligibility criteria.

- <@&{}> - Your **trust level** on the Roblox developer forum is `Member` (not to be confused with `Visitor`)
- What is the developer forum? [**Learn more**](https://help.roblox.com/hc/articles/360000240223)
- How do I \"level up\"? [**Learn more**](https://devforum.roblox.com/t/3170997)",
        987654321u64
    );
    assert_eq!(e.description.as_deref(), Some(expected.as_str()));
    assert_eq!(e.thumbnail.as_deref(), Some("devforum-logo.png"));
    let r = posted_response();
    assert_eq!(r.content.as_deref(), Some("Successfully sent the self-role embed."));
    assert!(r.ephemeral);
}

#[test]
fn commands_are_dispatched_by_name() {
    assert_eq!(command_for_name("faq"), Some(CommandKind::Faq));
    assert_eq!(command_for_name("config"), Some(CommandKind::Config));
    assert_eq!(command_for_name("highlight"), Some(CommandKind::Highlight));
    assert_eq!(command_for_name("devforum-self-role"), Some(CommandKind::DevForumSelfRole));
    assert_eq!(command_for_name("ping"), None);
    let ms = models(&faq_config());
    let kinds: Vec<Option<CommandKind>> = ms.iter().map(|m| command_for_name(&m.name)).collect();
    assert_eq!(
        kinds,
        [
            Some(CommandKind::DevForumSelfRole),
            Some(CommandKind::Config),
            Some(CommandKind::Faq),
            Some(CommandKind::Highlight)
        ]
    );
}

#[test]
fn events_are_routed() {
    assert_eq!(event_action(EventKind::Ready), EventAction::PublishCommands);
    assert_eq!(
        event_action(EventKind::InteractionCreate(InteractionKind::ApplicationCommand)),
        EventAction::HandleCommand
    );
    assert_eq!(
        event_action(EventKind::InteractionCreate(InteractionKind::MessageComponent)),
        EventAction::HandleComponent
    );
    assert_eq!(
        event_action(EventKind::InteractionCreate(InteractionKind::ModalSubmit)),
        EventAction::Unsupported
    );
    assert_eq!(event_action(EventKind::Other), EventAction::Ignore);
}

#[test]
fn program_arguments() {
    assert!(is_validate_config(&Some("validate-config".to_string())));
    assert!(!is_validate_config(&Some("run".to_string())));
    assert!(!is_validate_config(&None));
    assert_eq!(config_path_or_default(None), "magnolia.cfg.yml");
    assert_eq!(config_path_or_default(Some("other.yml".to_string())), "other.yml");
}

#[test]
fn find_option_takes_first() {
    let opts = vec![opt("a", text("1")), opt("b", text("2")), opt("a", text("3"))];
    assert_eq!(find_option(&opts, "a"), Some(0));
    assert_eq!(find_option(&opts, "b"), Some(1));
    assert_eq!(find_option(&opts, "c"), None);
}
