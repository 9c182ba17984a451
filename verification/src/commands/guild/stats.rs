use crate::commands::stats::{desc, emote_opt_desc, emote_opt_name, name};
use crate::commands::{
    leaf, leaf_view, sub_command, sub_view, CommandKind, CommandSchema, CommandSchemaView, LeafOption,
    LeafOptionKind, TopOption, TopOptionView,
};
use crate::util::LocalizedString;
use vstd::prelude::*;

verus! {

pub fn guild_sub_name() -> (r: LocalizedString)
    ensures
        r.en@ == "guild"@,
{
    LocalizedString { en: "guild" }
}

pub fn guild_sub_desc() -> (r: LocalizedString)
    ensures
        r.en@ == "Emote usage statistics for the current guild!"@,
{
    LocalizedString { en: "Emote usage statistics for the current guild!" }
}

/// The command that reports emote usage statistics.
pub struct GuildStatsCmd;

impl GuildStatsCmd {
    pub fn name() -> (r: LocalizedString)
        ensures
            r.en@ == "stats"@,
    {
        crate::commands::stats::name()
    }

    /// The schema the stats command registers: one guild sub-command with an
    /// optional emote filter.
    pub open spec fn schema_view() -> CommandSchemaView {
        CommandSchemaView {
            name: "stats"@,
            name_locale_en: None,
            description: "Emote usage statistics"@,
            description_locale_en: None,
            kind: CommandKind::ChatInput,
            options: seq![
                TopOptionView::Sub(
                    sub_view(
                        "guild"@,
                        "Emote usage statistics for the current guild!"@,
                        seq![leaf_view(LeafOptionKind::Text, "emote"@, "Emote to filter by"@)],
                    ),
                ),
            ],
        }
    }

    pub fn to_application_command() -> (r: CommandSchema)
        ensures
            r@ == Self::schema_view(),
    {
        let mut leaves: Vec<LeafOption> = Vec::new();
        leaves.push(leaf(LeafOptionKind::Text, emote_opt_name(), emote_opt_desc()));
        proof {
            assert(leaves@.map_values(|o: LeafOption| o@) =~= seq![
                leaf_view(LeafOptionKind::Text, "emote"@, "Emote to filter by"@),
            ]);
        }
        let guild_sub = sub_command(guild_sub_name(), guild_sub_desc(), leaves);
        let mut options: Vec<TopOption> = Vec::new();
        options.push(TopOption::Sub(guild_sub));
        proof {
            assert(options@.map_values(|o: TopOption| o@) =~= seq![
                TopOptionView::Sub(
                    sub_view(
                        "guild"@,
                        "Emote usage statistics for the current guild!"@,
                        seq![leaf_view(LeafOptionKind::Text, "emote"@, "Emote to filter by"@)],
                    ),
                ),
            ]);
        }
        CommandSchema {
            name: String::from_str(name().en),
            name_locale_en: None,
            description: String::from_str(desc().en),
            description_locale_en: None,
            kind: CommandKind::ChatInput,
            options: options,
        }
    }
}

} // verus!
