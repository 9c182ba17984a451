use crate::util::LocalizedString;
use vstd::prelude::*;

verus! {

// Shared by every command.
pub fn info() -> (r: LocalizedString)
    ensures
        r.en@ == "info"@,
{
    LocalizedString { en: "info" }
}

pub fn info_desc() -> (r: LocalizedString)
    ensures
        r.en@ == "Retrieve information!"@,
{
    LocalizedString { en: "Retrieve information!" }
}

pub fn description() -> (r: LocalizedString)
    ensures
        r.en@ == "description"@,
{
    LocalizedString { en: "description" }
}

pub fn description_desc() -> (r: LocalizedString)
    ensures
        r.en@ == "Retrieve description!"@,
{
    LocalizedString { en: "Retrieve description!" }
}

pub fn custom() -> (r: LocalizedString)
    ensures
        r.en@ == "custom"@,
{
    LocalizedString { en: "custom" }
}

pub fn custom_desc() -> (r: LocalizedString)
    ensures
        r.en@ == "Provide a custom parameter!"@,
{
    LocalizedString { en: "Provide a custom parameter!" }
}

// General platform attributes.
pub fn id() -> (r: LocalizedString)
    ensures
        r.en@ == "id"@,
{
    LocalizedString { en: "id" }
}

pub fn id_desc() -> (r: LocalizedString)
    ensures
        r.en@ == "Retrieve id!"@,
{
    LocalizedString { en: "Retrieve id!" }
}

pub fn created() -> (r: LocalizedString)
    ensures
        r.en@ == "created"@,
{
    LocalizedString { en: "created" }
}

pub fn created_desc() -> (r: LocalizedString)
    ensures
        r.en@ == "Retrieve when created!"@,
{
    LocalizedString { en: "Retrieve when created!" }
}

pub fn avatar() -> (r: LocalizedString)
    ensures
        r.en@ == "avatar"@,
{
    LocalizedString { en: "avatar" }
}

pub fn avatar_desc() -> (r: LocalizedString)
    ensures
        r.en@ == "Retrieve avatar!"@,
{
    LocalizedString { en: "Retrieve avatar!" }
}

pub fn roles() -> (r: LocalizedString)
    ensures
        r.en@ == "roles"@,
{
    LocalizedString { en: "roles" }
}

pub fn roles_desc() -> (r: LocalizedString)
    ensures
        r.en@ == "Retrieve roles!"@,
{
    LocalizedString { en: "Retrieve roles!" }
}

// User attributes.
pub fn username() -> (r: LocalizedString)
    ensures
        r.en@ == "name"@,
{
    LocalizedString { en: "name" }
}

pub fn username_desc() -> (r: LocalizedString)
    ensures
        r.en@ == "Retrieve name!"@,
{
    LocalizedString { en: "Retrieve name!" }
}

pub fn discriminator() -> (r: LocalizedString)
    ensures
        r.en@ == "discriminator"@,
{
    LocalizedString { en: "discriminator" }
}

pub fn discriminator_desc() -> (r: LocalizedString)
    ensures
        r.en@ == "Retrieve discriminator!"@,
{
    LocalizedString { en: "Retrieve discriminator!" }
}

pub fn nick() -> (r: LocalizedString)
    ensures
        r.en@ == "nick"@,
{
    LocalizedString { en: "nick" }
}

pub fn nick_desc() -> (r: LocalizedString)
    ensures
        r.en@ == "Retrieve nickname!"@,
{
    LocalizedString { en: "Retrieve nickname!" }
}

pub fn joined() -> (r: LocalizedString)
    ensures
        r.en@ == "joined"@,
{
    LocalizedString { en: "joined" }
}

pub fn joined_desc() -> (r: LocalizedString)
    ensures
        r.en@ == "Retrieve when joined!"@,
{
    LocalizedString { en: "Retrieve when joined!" }
}

// Guild attributes.
pub fn owner() -> (r: LocalizedString)
    ensures
        r.en@ == "owner"@,
{
    LocalizedString { en: "owner" }
}

pub fn owner_desc() -> (r: LocalizedString)
    ensures
        r.en@ == "Retrieve owner!"@,
{
    LocalizedString { en: "Retrieve owner!" }
}

pub fn nsfwlevel() -> (r: LocalizedString)
    ensures
        r.en@ == "nsfw_level"@,
{
    LocalizedString { en: "nsfw_level" }
}

pub fn nsfwlevel_desc() -> (r: LocalizedString)
    ensures
        r.en@ == "Retrieve NSFW level!"@,
{
    LocalizedString { en: "Retrieve NSFW level!" }
}

// Guild members.
pub fn member() -> (r: LocalizedString)
    ensures
        r.en@ == "members"@,
{
    LocalizedString { en: "members" }
}

pub fn member_desc() -> (r: LocalizedString)
    ensures
        r.en@ == "Guild Members"@,
{
    LocalizedString { en: "Guild Members" }
}

// Guild channels.
pub fn channel() -> (r: LocalizedString)
    ensures
        r.en@ == "channel"@,
{
    LocalizedString { en: "channel" }
}

pub fn channel_desc() -> (r: LocalizedString)
    ensures
        r.en@ == "Retrieve channel!"@,
{
    LocalizedString { en: "Retrieve channel!" }
}

pub fn widgetchannel() -> (r: LocalizedString)
    ensures
        r.en@ == "widget"@,
{
    LocalizedString { en: "widget" }
}

pub fn widgetchannel_desc() -> (r: LocalizedString)
    ensures
        r.en@ == "Retrieve widget channel!"@,
{
    LocalizedString { en: "Retrieve widget channel!" }
}

pub fn systemchannel() -> (r: LocalizedString)
    ensures
        r.en@ == "system"@,
{
    LocalizedString { en: "system" }
}

pub fn systemchannel_desc() -> (r: LocalizedString)
    ensures
        r.en@ == "Retrieve system channel!"@,
{
    LocalizedString { en: "Retrieve system channel!" }
}

pub fn ruleschannel() -> (r: LocalizedString)
    ensures
        r.en@ == "rules"@,
{
    LocalizedString { en: "rules" }
}

pub fn ruleschannel_desc() -> (r: LocalizedString)
    ensures
        r.en@ == "Retrieve rules channel!"@,
{
    LocalizedString { en: "Retrieve rules channel!" }
}

pub fn afkchannel() -> (r: LocalizedString)
    ensures
        r.en@ == "afk"@,
{
    LocalizedString { en: "afk" }
}

pub fn afkchannel_desc() -> (r: LocalizedString)
    ensures
        r.en@ == "Retrieve AFK channel!"@,
{
    LocalizedString { en: "Retrieve AFK channel!" }
}

pub fn customchannel() -> (r: LocalizedString)
    ensures
        r.en@ == "channel"@,
{
    LocalizedString { en: "channel" }
}

pub fn customchannel_desc() -> (r: LocalizedString)
    ensures
        r.en@ == "Provide a custom channel!"@,
{
    LocalizedString { en: "Provide a custom channel!" }
}

// Stocks.
pub fn stock() -> (r: LocalizedString)
    ensures
        r.en@ == "stock"@,
{
    LocalizedString { en: "stock" }
}

pub fn stock_desc() -> (r: LocalizedString)
    ensures
        r.en@ == "Retrieve stocks!"@,
{
    LocalizedString { en: "Retrieve stocks!" }
}

pub fn history() -> (r: LocalizedString)
    ensures
        r.en@ == "history"@,
{
    LocalizedString { en: "history" }
}

pub fn history_desc() -> (r: LocalizedString)
    ensures
        r.en@ == "Retrieve stock history!"@,
{
    LocalizedString { en: "Retrieve stock history!" }
}

// Gate training.
pub fn and() -> (r: LocalizedString)
    ensures
        r.en@ == "and"@,
{
    LocalizedString { en: "and" }
}

pub fn and_desc() -> (r: LocalizedString)
    ensures
        r.en@ == "Train and Test AND Gate!"@,
{
    LocalizedString { en: "Train and Test AND Gate!" }
}

pub fn or() -> (r: LocalizedString)
    ensures
        r.en@ == "or"@,
{
    LocalizedString { en: "or" }
}

pub fn or_desc() -> (r: LocalizedString)
    ensures
        r.en@ == "Train and Test OR Gate!"@,
{
    LocalizedString { en: "Train and Test OR Gate!" }
}

pub fn nand() -> (r: LocalizedString)
    ensures
        r.en@ == "nand"@,
{
    LocalizedString { en: "nand" }
}

pub fn nand_desc() -> (r: LocalizedString)
    ensures
        r.en@ == "Train and Test NAND Gate!"@,
{
    LocalizedString { en: "Train and Test NAND Gate!" }
}

pub fn nor() -> (r: LocalizedString)
    ensures
        r.en@ == "nor"@,
{
    LocalizedString { en: "nor" }
}

pub fn nor_desc() -> (r: LocalizedString)
    ensures
        r.en@ == "Train and Test NOR Gate!"@,
{
    LocalizedString { en: "Train and Test NOR Gate!" }
}

pub fn xor() -> (r: LocalizedString)
    ensures
        r.en@ == "xor"@,
{
    LocalizedString { en: "xor" }
}

pub fn xor_desc() -> (r: LocalizedString)
    ensures
        r.en@ == "Train and Test XOR Gate!"@,
{
    LocalizedString { en: "Train and Test XOR Gate!" }
}

} // verus!
