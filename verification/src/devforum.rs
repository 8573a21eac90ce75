//! The `devforum-self-role` command: it posts an information embed with a
//! button that lets members claim their developer forum role.

use vstd::prelude::*;
use crate::interaction::{guild_command, text_response, CommandModel, Embed, ResponseData, MANAGE_CHANNELS};
use crate::text::{decimal, u64_to_decimal};

verus! {

/// The text of the information embed before the role mention.
pub const INFO_BEFORE_ROLE: &'static str = "Click the `Update Roles` button below to claim your developer forum member role if you meet the eligibility criteria.\n\n- <@&";

/// The text of the information embed after the role mention.
pub const INFO_AFTER_ROLE: &'static str = "> - Your **trust level** on the Roblox developer forum is `Member` (not to be confused with `Visitor`)\n- What is the developer forum? [**Learn more**](https://help.roblox.com/hc/articles/360000240223)\n- How do I \"level up\"? [**Learn more**](https://devforum.roblox.com/t/3170997)";

/// The file name of the logo attached to the information message.
pub const LOGO_FILE_NAME: &'static str = "devforum-logo.png";

/// Whether `c` is the schema of the `devforum-self-role` command.
pub open spec fn is_devforum_model(c: CommandModel) -> bool {
    &&& c.name@ == "devforum-self-role"@
    &&& c.description@ == "Send an info embed with a button to self-update DevForum roles."@
    &&& c.guild_only
    &&& c.default_member_permissions == MANAGE_CHANNELS
    &&& c.options@.len() == 0
}

/// The schema of the `devforum-self-role` command, which has no options.
pub fn devforum_model() -> (c: CommandModel)
    ensures
        is_devforum_model(c),
{
    guild_command(
        "devforum-self-role",
        "Send an info embed with a button to self-update DevForum roles.",
        Vec::new(),
    )
}

/// The information embed: a title, a description that mentions the member
/// role `member_role`, and the logo attachment as thumbnail.
pub fn info_embed(member_role: u64) -> (e: Embed)
    ensures
        e.title matches Some(t) && t@ == "Developer Forum Member Role(s)"@,
        e.description matches Some(d) && d@ == INFO_BEFORE_ROLE@ + decimal(member_role as nat)
            + INFO_AFTER_ROLE@,
        e.thumbnail matches Some(f) && f@ == LOGO_FILE_NAME@,
        e.fields@.len() == 0,
        e.footer is None,
{
    let mut description = INFO_BEFORE_ROLE.to_owned();
    description.append(u64_to_decimal(member_role).as_str());
    description.append(INFO_AFTER_ROLE);
    Embed {
        title: Some("Developer Forum Member Role(s)".to_owned()),
        description: Some(description),
        thumbnail: Some(LOGO_FILE_NAME.to_owned()),
        fields: Vec::new(),
        footer: None,
    }
}

/// The private answer to the invoking member once the embed was posted.
pub fn posted_response() -> (r: ResponseData)
    ensures
        r.content matches Some(c) && c@ == "Successfully sent the self-role embed."@,
        r.embeds@.len() == 0,
        r.ephemeral,
{
    text_response("Successfully sent the self-role embed.", true)
}

} // verus!
