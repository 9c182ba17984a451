use crate::builders::embed::{empty_embed, EmbedData, EmbedView};
use crate::builders::roles::{roles_field_view, roles_to_field};
use crate::commands::option_data::{
    afkchannel, afkchannel_desc, avatar, avatar_desc, channel, channel_desc, created,
    created_desc, custom, custom_desc, customchannel, customchannel_desc, description,
    description_desc, id, id_desc, info, info_desc, nsfwlevel, nsfwlevel_desc, owner, owner_desc,
    roles, roles_desc, ruleschannel, ruleschannel_desc, systemchannel, systemchannel_desc,
    username, username_desc, widgetchannel, widgetchannel_desc,
};
use crate::commands::{
    group, group_view, leaf, leaf_view, sub_command_bare, sub_command_one, sub_view, CommandKind,
    CommandSchema, CommandSchemaView, LeafOptionKind, SubCommandOption, SubCommandOptionView,
    TopOption, TopOptionView,
};
use crate::handler::command_details::{CommandDataOption, CommandDataOptionView};
use crate::util::{dec_of, str_eq, u64_to_dec, LocalizedString};
use vstd::prelude::*;

verus! {

pub fn name() -> (r: LocalizedString)
    ensures
        r.en@ == "server"@,
{
    LocalizedString { en: "server" }
}

pub fn desc() -> (r: LocalizedString)
    ensures
        r.en@ == "Commands accessing the server!"@,
{
    LocalizedString { en: "Commands accessing the server!" }
}

/// The command that reports attributes of the current guild.
pub struct GuildServerCmd;

impl GuildServerCmd {
    pub fn name() -> (r: LocalizedString)
        ensures
            r.en@ == "server"@,
    {
        name()
    }

    /// The sub-commands of the channel group: one per well-known channel,
    /// and a custom one that takes a channel parameter.
    pub open spec fn channel_group_view() -> Seq<SubCommandOptionView> {
        seq![
            sub_view("afk"@, "Retrieve AFK channel!"@, Seq::empty()),
            sub_view("widget"@, "Retrieve widget channel!"@, Seq::empty()),
            sub_view("system"@, "Retrieve system channel!"@, Seq::empty()),
            sub_view("rules"@, "Retrieve rules channel!"@, Seq::empty()),
            sub_view(
                "custom"@,
                "Provide a custom parameter!"@,
                seq![
                    leaf_view(LeafOptionKind::Channel, "channel"@, "Provide a custom channel!"@),
                ],
            ),
        ]
    }

    /// The schema the server command registers: one sub-command per guild
    /// attribute, and a group for the guild's channels.
    pub open spec fn schema_view() -> CommandSchemaView {
        CommandSchemaView {
            name: "server"@,
            name_locale_en: None,
            description: "Commands accessing the server!"@,
            description_locale_en: None,
            kind: CommandKind::ChatInput,
            options: seq![
                TopOptionView::Sub(sub_view("info"@, "Retrieve information!"@, Seq::empty())),
                TopOptionView::Sub(sub_view("avatar"@, "Retrieve avatar!"@, Seq::empty())),
                TopOptionView::Sub(sub_view("roles"@, "Retrieve roles!"@, Seq::empty())),
                TopOptionView::Sub(sub_view("id"@, "Retrieve id!"@, Seq::empty())),
                TopOptionView::Sub(sub_view("created"@, "Retrieve when created!"@, Seq::empty())),
                TopOptionView::Group(
                    group_view("channel"@, "Retrieve channel!"@, Self::channel_group_view()),
                ),
                TopOptionView::Sub(sub_view("nsfw_level"@, "Retrieve NSFW level!"@, Seq::empty())),
                TopOptionView::Sub(
                    sub_view("description"@, "Retrieve description!"@, Seq::empty()),
                ),
                TopOptionView::Sub(sub_view("owner"@, "Retrieve owner!"@, Seq::empty())),
                TopOptionView::Sub(sub_view("name"@, "Retrieve name!"@, Seq::empty())),
            ],
        }
    }

    pub fn to_application_command() -> (r: CommandSchema)
        ensures
            r@ == Self::schema_view(),
    {
        let mut subs: Vec<SubCommandOption> = Vec::new();
        subs.push(sub_command_bare(afkchannel(), afkchannel_desc()));
        subs.push(sub_command_bare(widgetchannel(), widgetchannel_desc()));
        subs.push(sub_command_bare(systemchannel(), systemchannel_desc()));
        subs.push(sub_command_bare(ruleschannel(), ruleschannel_desc()));
        subs.push(
            sub_command_one(
                custom(),
                custom_desc(),
                leaf(LeafOptionKind::Channel, customchannel(), customchannel_desc()),
            ),
        );
        proof {
            assert(subs@.map_values(|o: SubCommandOption| o@) =~= Self::channel_group_view());
        }
        let channel_group = group(channel(), channel_desc(), subs);
        let mut options: Vec<TopOption> = Vec::new();
        options.push(TopOption::Sub(sub_command_bare(info(), info_desc())));
        options.push(TopOption::Sub(sub_command_bare(avatar(), avatar_desc())));
        options.push(TopOption::Sub(sub_command_bare(roles(), roles_desc())));
        options.push(TopOption::Sub(sub_command_bare(id(), id_desc())));
        options.push(TopOption::Sub(sub_command_bare(created(), created_desc())));
        options.push(TopOption::Group(channel_group));
        options.push(TopOption::Sub(sub_command_bare(nsfwlevel(), nsfwlevel_desc())));
        options.push(TopOption::Sub(sub_command_bare(description(), description_desc())));
        options.push(TopOption::Sub(sub_command_bare(owner(), owner_desc())));
        options.push(TopOption::Sub(sub_command_bare(username(), username_desc())));
        proof {
            assert(options@.map_values(|o: TopOption| o@) =~= Self::schema_view().options);
        }
        CommandSchema {
            name: String::from_str(name().en),
            name_locale_en: None,
            description: String::from_str(desc().en),
            description_locale_en: None,
            kind: CommandKind::ChatInput,
            options: options,
        }
    }
}

/// The guild attributes an embed can report.
#[derive(Debug, Clone, Copy, PartialEq, Eq, Structural)]
pub enum GuildServerPropertyTypes {
    Roles,
    Avatar,
    Name,
    Id,
    Created,
    Owner,
    Description,
    NSFWLevel,
    Channel,
}

/// The guild attribute a raw sub-command name selects, if any.
pub open spec fn server_property_of_name(s: Seq<char>) -> Option<GuildServerPropertyTypes> {
    if s == "roles"@ {
        Some(GuildServerPropertyTypes::Roles)
    } else if s == "avatar"@ {
        Some(GuildServerPropertyTypes::Avatar)
    } else if s == "id"@ {
        Some(GuildServerPropertyTypes::Id)
    } else if s == "created"@ {
        Some(GuildServerPropertyTypes::Created)
    } else if s == "name"@ {
        Some(GuildServerPropertyTypes::Name)
    } else if s == "owner"@ {
        Some(GuildServerPropertyTypes::Owner)
    } else if s == "description"@ {
        Some(GuildServerPropertyTypes::Description)
    } else if s == "nsfwlevel"@ {
        Some(GuildServerPropertyTypes::NSFWLevel)
    } else if s == "channel"@ {
        Some(GuildServerPropertyTypes::Channel)
    } else {
        None
    }
}

impl GuildServerPropertyTypes {
    pub fn from_name(s: &str) -> (r: Result<GuildServerPropertyTypes, ()>)
        ensures
            match server_property_of_name(s@) {
                Some(v) => r == Ok::<GuildServerPropertyTypes, ()>(v),
                None => r is Err,
            },
    {
        if crate::util::str_eq(s, "roles") {
            Ok(GuildServerPropertyTypes::Roles)
        } else if crate::util::str_eq(s, "avatar") {
            Ok(GuildServerPropertyTypes::Avatar)
        } else if crate::util::str_eq(s, "id") {
            Ok(GuildServerPropertyTypes::Id)
        } else if crate::util::str_eq(s, "created") {
            Ok(GuildServerPropertyTypes::Created)
        } else if crate::util::str_eq(s, "name") {
            Ok(GuildServerPropertyTypes::Name)
        } else if crate::util::str_eq(s, "owner") {
            Ok(GuildServerPropertyTypes::Owner)
        } else if crate::util::str_eq(s, "description") {
            Ok(GuildServerPropertyTypes::Description)
        } else if crate::util::str_eq(s, "nsfwlevel") {
            Ok(GuildServerPropertyTypes::NSFWLevel)
        } else if crate::util::str_eq(s, "channel") {
            Ok(GuildServerPropertyTypes::Channel)
        } else {
            Err(())
        }
    }
}

/// The age-restriction level the platform reports for a guild.
#[derive(Debug, Clone, Copy, PartialEq, Eq, Structural)]
pub enum NsfwLevel {
    Default,
    Explicit,
    Safe,
    AgeRestricted,
    Unknown,
}

pub open spec fn nsfw_text(l: NsfwLevel) -> Seq<char> {
    match l {
        NsfwLevel::Default => "Default"@,
        NsfwLevel::Explicit => "Explicit"@,
        NsfwLevel::Safe => "Safe"@,
        NsfwLevel::AgeRestricted => "AgeRestricted"@,
        NsfwLevel::Unknown => "Unknown"@,
    }
}

fn nsfw_str(l: NsfwLevel) -> (r: &'static str)
    ensures
        r@ == nsfw_text(l),
{
    match l {
        NsfwLevel::Default => "Default",
        NsfwLevel::Explicit => "Explicit",
        NsfwLevel::Safe => "Safe",
        NsfwLevel::AgeRestricted => "AgeRestricted",
        NsfwLevel::Unknown => "Unknown",
    }
}

/// What a guild looks like to the library: the attributes the server
/// command reports, as plain values.
pub struct GuildSnapshot {
    pub id: u64,
    pub name: String,
    pub description: Option<String>,
    pub owner_id: u64,
    pub roles: Vec<u64>,
    pub nsfw_level: NsfwLevel,
    pub icon_url: Option<String>,
    pub afk_channel_id: Option<u64>,
    pub rules_channel_id: Option<u64>,
    pub widget_channel_id: Option<u64>,
    pub system_channel_id: Option<u64>,
}

pub struct GuildView {
    pub id: u64,
    pub name: Seq<char>,
    pub description: Option<Seq<char>>,
    pub owner_id: u64,
    pub roles: Seq<u64>,
    pub nsfw_level: NsfwLevel,
    pub icon_url: Option<Seq<char>>,
    pub afk_channel_id: Option<u64>,
    pub rules_channel_id: Option<u64>,
    pub widget_channel_id: Option<u64>,
    pub system_channel_id: Option<u64>,
}

pub open spec fn opt_text(s: Option<String>) -> Option<Seq<char>> {
    match s {
        Some(t) => Some(t@),
        None => None,
    }
}

impl View for GuildSnapshot {
    type V = GuildView;

    open spec fn view(&self) -> GuildView {
        GuildView {
            id: self.id,
            name: self.name@,
            description: opt_text(self.description),
            owner_id: self.owner_id,
            roles: self.roles@,
            nsfw_level: self.nsfw_level,
            icon_url: opt_text(self.icon_url),
            afk_channel_id: self.afk_channel_id,
            rules_channel_id: self.rules_channel_id,
            widget_channel_id: self.widget_channel_id,
            system_channel_id: self.system_channel_id,
        }
    }
}

/// The mention text for a channel, or the fallback when none is set.
pub open spec fn channel_text(c: Option<u64>) -> Seq<char> {
    match c {
        Some(id) => "<#"@ + dec_of(id as nat) + ">"@,
        None => "No channel defined!"@,
    }
}

fn channel_string(c: &Option<u64>) -> (r: String)
    ensures
        r@ == channel_text(*c),
{
    match c {
        Some(id) => String::from_str("<#").concat(u64_to_dec(*id).as_str()).concat(">"),
        None => String::from_str("No channel defined!"),
    }
}

/// The embed after one guild attribute is reported into it.
pub open spec fn apply_server_field(
    e: EmbedView,
    t: GuildServerPropertyTypes,
    g: GuildView,
    node: CommandDataOptionView,
) -> EmbedView {
    match t {
        GuildServerPropertyTypes::Roles => e.with_field_view(roles_field_view(g.roles, None)),
        GuildServerPropertyTypes::Avatar => match g.icon_url {
            Some(u) => e.with_image(u),
            None => e,
        },
        GuildServerPropertyTypes::Id => e.with_field("Id"@, dec_of(g.id as nat), true),
        GuildServerPropertyTypes::Created => e.with_field("Created"@, Seq::empty(), true),
        GuildServerPropertyTypes::Name => e.with_field("Name"@, g.name, true),
        GuildServerPropertyTypes::Owner => e.with_field(
            "Owner"@,
            "<@"@ + dec_of(g.owner_id as nat) + ">"@,
            true,
        ),
        GuildServerPropertyTypes::Description => e.with_field(
            "Description"@,
            match g.description {
                Some(d) => d,
                None => "No description set."@,
            },
            true,
        ),
        GuildServerPropertyTypes::NSFWLevel => e.with_field(
            "NSFW Level"@,
            "<"@ + nsfw_text(g.nsfw_level) + ">"@,
            true,
        ),
        GuildServerPropertyTypes::Channel => {
            let sub = node.options[0].name;
            if sub == "afk"@ {
                e.with_field("AFK Channel"@, channel_text(g.afk_channel_id), true)
            } else if sub == "rules"@ {
                e.with_field("Rules Channel"@, channel_text(g.rules_channel_id), true)
            } else if sub == "widget"@ {
                e.with_field("Widget Channel"@, channel_text(g.widget_channel_id), true)
            } else if sub == "system"@ {
                e.with_field("System Channel"@, channel_text(g.system_channel_id), true)
            } else {
                e
            }
        },
    }
}

/// The embed after a list of guild attributes is reported into it, in
/// order. A channel request without a selected channel sub-command stops
/// the reporting where it stands.
pub open spec fn apply_server_fields(
    e: EmbedView,
    ts: Seq<GuildServerPropertyTypes>,
    g: GuildView,
    node: CommandDataOptionView,
) -> EmbedView
    decreases ts.len(),
{
    if ts.len() == 0 {
        e
    } else if ts[0] is Channel && node.options.len() == 0 {
        e
    } else {
        apply_server_fields(apply_server_field(e, ts[0], g, node), ts.drop_first(), g, node)
    }
}

fn create_field_from_embed_types(
    embed_types: &Vec<GuildServerPropertyTypes>,
    server: &GuildSnapshot,
    embed: &mut EmbedData,
    command_data_option: &CommandDataOption,
)
    ensures
        final(embed)@ == apply_server_fields(
            old(embed)@,
            embed_types@,
            server@,
            command_data_option@,
        ),
{
    let ghost ts = embed_types@;
    let ghost e0 = embed@;
    let ghost g = server@;
    let ghost node = command_data_option@;
    let mut i: usize = 0;
    proof {
        assert(ts.skip(0) =~= ts);
    }
    while i < embed_types.len()
        invariant
            0 <= i <= embed_types.len(),
            ts == embed_types@,
            e0 == old(embed)@,
            g == server@,
            node == command_data_option@,
            apply_server_fields(e0, ts, g, node) == apply_server_fields(
                embed@,
                ts.skip(i as int),
                g,
                node,
            ),
        decreases embed_types.len() - i,
    {
        let t = embed_types[i];
        proof {
            assert(ts.skip(i as int)[0] == ts[i as int]);
            assert(ts.skip(i as int).drop_first() =~= ts.skip(i + 1 as int));
        }
        let ghost prev = embed@;
        match t {
            GuildServerPropertyTypes::Roles => {
                let f = roles_to_field(&server.roles, None);
                embed.add_field(f);
            },
            GuildServerPropertyTypes::Avatar => {
                match &server.icon_url {
                    Some(u) => {
                        embed.image(u.clone());
                    },
                    None => {},
                }
            },
            GuildServerPropertyTypes::Id => {
                embed.field(String::from_str("Id"), u64_to_dec(server.id), true);
            },
            GuildServerPropertyTypes::Created => {
                embed.field(String::from_str("Created"), String::new(), true);
            },
            GuildServerPropertyTypes::Name => {
                embed.field(String::from_str("Name"), server.name.clone(), true);
            },
            GuildServerPropertyTypes::Owner => {
                let mention = String::from_str("<@").concat(
                    u64_to_dec(server.owner_id).as_str(),
                ).concat(">");
                embed.field(String::from_str("Owner"), mention, true);
            },
            GuildServerPropertyTypes::Description => {
                let text = match &server.description {
                    Some(d) => d.clone(),
                    None => String::from_str("No description set."),
                };
                embed.field(String::from_str("Description"), text, true);
            },
            GuildServerPropertyTypes::NSFWLevel => {
                let text = String::from_str("<").concat(nsfw_str(server.nsfw_level)).concat(">");
                embed.field(String::from_str("NSFW Level"), text, true);
            },
            GuildServerPropertyTypes::Channel => {
                if command_data_option.options.len() == 0 {
                    proof {
                        assert(node.options.len() == 0);
                        assert(apply_server_fields(embed@, ts.skip(i as int), g, node) == embed@);
                    }
                    return ;
                }
                let opt = &command_data_option.options[0];
                proof {
                    assert(node.options[0] == opt@);
                }
                if str_eq(opt.name.as_str(), "afk") {
                    embed.field(
                        String::from_str("AFK Channel"),
                        channel_string(&server.afk_channel_id),
                        true,
                    );
                } else if str_eq(opt.name.as_str(), "rules") {
                    embed.field(
                        String::from_str("Rules Channel"),
                        channel_string(&server.rules_channel_id),
                        true,
                    );
                } else if str_eq(opt.name.as_str(), "widget") {
                    embed.field(
                        String::from_str("Widget Channel"),
                        channel_string(&server.widget_channel_id),
                        true,
                    );
                } else if str_eq(opt.name.as_str(), "system") {
                    embed.field(
                        String::from_str("System Channel"),
                        channel_string(&server.system_channel_id),
                        true,
                    );
                }
            },
        }
        proof {
            assert(embed@ == apply_server_field(prev, ts[i as int], g, node));
        }
        i += 1;
    }
    proof {
        assert(ts.skip(ts.len() as int) =~= Seq::<GuildServerPropertyTypes>::empty());
    }
}

/// The embed the server command replies with for one selected sub-command.
pub open spec fn server_embed_view(node: CommandDataOptionView, g: GuildView) -> EmbedView {
    let base = empty_embed().with_title(g.name).with_description(
        match g.description {
            Some(d) => d,
            None => Seq::empty(),
        },
    );
    let based = if node.name != "avatar"@ {
        match g.icon_url {
            Some(u) => base.with_thumbnail(u),
            None => base,
        }
    } else {
        base
    };
    if node.name == "info"@ {
        apply_server_fields(
            based,
            seq![
                GuildServerPropertyTypes::Owner,
                GuildServerPropertyTypes::Id,
                GuildServerPropertyTypes::Roles,
            ],
            g,
            node,
        )
    } else {
        match server_property_of_name(node.name) {
            Some(t) => apply_server_fields(based, seq![t], g, node),
            None => based,
        }
    }
}

/// Builds the reply embed for the server command: title, description and
/// thumbnail from the guild, then the fields the selected sub-command asks
/// for.
pub fn create_embed_single(command_data_option: &CommandDataOption, server: GuildSnapshot) -> (r:
    EmbedData)
    ensures
        r@ == server_embed_view(command_data_option@, server@),
{
    let mut embed = EmbedData::new();
    embed.title(server.name.clone());
    let desc = match &server.description {
        Some(d) => d.clone(),
        None => String::new(),
    };
    embed.description(desc);
    if !str_eq(command_data_option.name.as_str(), "avatar") {
        match &server.icon_url {
            Some(u) => {
                embed.thumbnail(u.clone());
            },
            None => {},
        }
    }
    if str_eq(command_data_option.name.as_str(), "info") {
        let mut embed_types: Vec<GuildServerPropertyTypes> = Vec::new();
        embed_types.push(GuildServerPropertyTypes::Owner);
        embed_types.push(GuildServerPropertyTypes::Id);
        embed_types.push(GuildServerPropertyTypes::Roles);
        proof {
            assert(embed_types@ =~= seq![
                GuildServerPropertyTypes::Owner,
                GuildServerPropertyTypes::Id,
                GuildServerPropertyTypes::Roles,
            ]);
        }
        create_field_from_embed_types(&embed_types, &server, &mut embed, command_data_option);
    } else {
        match GuildServerPropertyTypes::from_name(command_data_option.name.as_str()) {
            Ok(t) => {
                let mut embed_types: Vec<GuildServerPropertyTypes> = Vec::new();
                embed_types.push(t);
                proof {
                    assert(embed_types@ =~= seq![t]);
                }
                create_field_from_embed_types(
                    &embed_types,
                    &server,
                    &mut embed,
                    command_data_option,
                );
            },
            Err(_) => {},
        }
    }
    embed
}

/// The reply to the server command: a single embed.
pub fn create_response_server(embed_type: &CommandDataOption, server: GuildSnapshot) -> (r: Vec<
    EmbedData,
>)
    ensures
        r@.map_values(|e: EmbedData| e@) == seq![server_embed_view(embed_type@, server@)],
{
    let embed = create_embed_single(embed_type, server);
    let mut r: Vec<EmbedData> = Vec::new();
    r.push(embed);
    proof {
        assert(r@.map_values(|e: EmbedData| e@) =~= seq![server_embed_view(embed_type@, server@)]);
    }
    r
}

} // verus!
