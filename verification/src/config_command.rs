//! The `config` command: it sends the bot's configuration back as a file, in
//! Rust debug form or as the raw YAML file.

use vstd::prelude::*;
use crate::interaction::{
    choice_is, guild_command, new_option, option_is, Choice, CommandModel, CommandOption,
    OptionKind, OptionValue, MANAGE_CHANNELS,
};
use crate::text::str_eq;

verus! {

/// The form in which the configuration is sent.
#[derive(PartialEq, Eq, Structural, Clone, Copy, Debug)]
pub enum FileType {
    Rust,
    Yaml,
}

/// Why a `config` invocation was refused.
#[derive(PartialEq, Eq, Structural, Clone, Copy, Debug)]
pub enum ConfigCommandError {
    /// The first option does not hold a string.
    ExpectedString,
    /// The string is not the name of a file type.
    InvalidFileType,
}

impl FileType {
    /// The name of the file type, as it is displayed and parsed.
    pub open spec fn name_view(self) -> Seq<char> {
        match self {
            FileType::Rust => "Rust"@,
            FileType::Yaml => "YAML"@,
        }
    }

    /// The name of the file type.
    pub fn to_string(&self) -> (r: String)
        ensures
            r@ == self.name_view(),
    {
        match self {
            FileType::Rust => "Rust".to_owned(),
            FileType::Yaml => "YAML".to_owned(),
        }
    }

    /// Parses a file type from its name; `Err` for any other text.
    pub fn from_str(s: &str) -> (r: Result<FileType, ConfigCommandError>)
        ensures
            match file_type_from_name(s@) {
                Some(ft) => r == Ok::<FileType, ConfigCommandError>(ft),
                None => r == Err::<FileType, ConfigCommandError>(ConfigCommandError::InvalidFileType),
            },
    {
        if str_eq(s, "Rust") {
            Ok(FileType::Rust)
        } else if str_eq(s, "YAML") {
            Ok(FileType::Yaml)
        } else {
            Err(ConfigCommandError::InvalidFileType)
        }
    }
}

/// The file type named `s`, if any.
pub open spec fn file_type_from_name(s: Seq<char>) -> Option<FileType> {
    if s == "Rust"@ {
        Some(FileType::Rust)
    } else if s == "YAML"@ {
        Some(FileType::Yaml)
    } else {
        None
    }
}

/// Parsing the name of a file type gives that file type back, and a parsed
/// file type has the text it was parsed from as its name.
pub proof fn lemma_file_type_round_trip(ft: FileType, s: Seq<char>)
    ensures
        file_type_from_name(ft.name_view()) == Some(ft),
        file_type_from_name(s) matches Some(parsed) ==> parsed.name_view() == s,
{
    reveal_strlit("Rust");
    reveal_strlit("YAML");
    assert("Rust"@[0] != "YAML"@[0]);
}

/// Whether `c` is the schema of the `config` command.
pub open spec fn is_config_model(c: CommandModel) -> bool {
    &&& c.name@ == "config"@
    &&& c.description@ == "Send quick responses to common questions/queries."@
    &&& c.guild_only
    &&& c.default_member_permissions == MANAGE_CHANNELS
    &&& c.options@.len() == 1
    &&& option_is(c.options@[0], OptionKind::String, "file_type"@, "The type of file to send"@, true)
    &&& c.options@[0].channel_types@.len() == 0
    &&& c.options@[0].options@.len() == 0
    &&& c.options@[0].choices@.len() == 2
    &&& choice_is(c.options@[0].choices@[0], "Rust"@, FileType::Rust.name_view())
    &&& choice_is(c.options@[0].choices@[1], "YAML"@, FileType::Yaml.name_view())
}

/// The schema of the `config` command: one required string option
/// `file_type` whose choices are the two file types.
pub fn config_model() -> (c: CommandModel)
    ensures
        is_config_model(c),
{
    let mut file_type = new_option(OptionKind::String, "file_type", "The type of file to send");
    file_type.required = true;
    file_type.choices.push(Choice { name: "Rust".to_owned(), value: FileType::Rust.to_string() });
    file_type.choices.push(Choice { name: "YAML".to_owned(), value: FileType::Yaml.to_string() });
    let mut options = Vec::new();
    options.push(file_type);
    guild_command("config", "Send quick responses to common questions/queries.", options)
}

/// Every choice that the `config` command offers parses as a file type.
pub proof fn lemma_config_choices_parse(c: CommandModel)
    requires
        is_config_model(c),
    ensures
        forall|i: int|
            0 <= i < c.options@[0].choices@.len() ==> (#[trigger] file_type_from_name(
                c.options@[0].choices@[i].value@,
            )) is Some,
{
    lemma_file_type_round_trip(FileType::Rust, "Rust"@);
    lemma_file_type_round_trip(FileType::Yaml, "YAML"@);
}

/// The file type that a `config` invocation asks for: its first option must
/// hold a string that names a file type.
pub fn requested_file_type(options: &Vec<CommandOption>) -> (r: Result<FileType, ConfigCommandError>)
    requires
        options@.len() > 0,
    ensures
        match options@[0].value {
            OptionValue::String(s) => match file_type_from_name(s@) {
                Some(ft) => r == Ok::<FileType, ConfigCommandError>(ft),
                None => r == Err::<FileType, ConfigCommandError>(ConfigCommandError::InvalidFileType),
            },
            _ => r == Err::<FileType, ConfigCommandError>(ConfigCommandError::ExpectedString),
        },
{
    match &options[0].value {
        OptionValue::String(s) => FileType::from_str(s.as_str()),
        _ => Err(ConfigCommandError::ExpectedString),
    }
}

/// The name of the attachment that carries the configuration in `ft` form.
pub fn attachment_name(ft: FileType) -> (r: String)
    ensures
        r@ == match ft {
            FileType::Rust => "magnolia.cfg.rs"@,
            FileType::Yaml => "magnolia.cfg.yml"@,
        },
{
    match ft {
        FileType::Rust => "magnolia.cfg.rs".to_owned(),
        FileType::Yaml => "magnolia.cfg.yml".to_owned(),
    }
}

} // verus!
