use crate::util::LocalizedString;
use vstd::prelude::*;

verus! {

pub fn name() -> (r: LocalizedString)
    ensures
        r.en@ == "stats"@,
{
    LocalizedString { en: "stats" }
}

pub fn desc() -> (r: LocalizedString)
    ensures
        r.en@ == "Emote usage statistics"@,
{
    LocalizedString { en: "Emote usage statistics" }
}

pub fn emote_opt_name() -> (r: LocalizedString)
    ensures
        r.en@ == "emote"@,
{
    LocalizedString { en: "emote" }
}

pub fn emote_opt_desc() -> (r: LocalizedString)
    ensures
        r.en@ == "Emote to filter by"@,
{
    LocalizedString { en: "Emote to filter by" }
}

} // verus!
