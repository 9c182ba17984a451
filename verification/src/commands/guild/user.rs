use crate::builders::embed::{empty_embed, EmbedData, EmbedView, COLOR_RED};
use crate::commands::option_data::{
    avatar, avatar_desc, created, created_desc, discriminator, discriminator_desc, id, id_desc,
    info, info_desc, joined as joined_opt, joined_desc, member, member_desc, nick, nick_desc,
    roles, roles_desc, username, username_desc,
};
use crate::commands::{
    leaf, leaf_view, sub_command_one, sub_view, CommandKind, CommandSchema, CommandSchemaView,
    LeafOption, LeafOptionKind, LeafOptionView, TopOption, TopOptionView,
};
use crate::builders::roles::{role_mentions, roles_field_view, roles_to_field, roles_to_text};
use crate::handler::command_details::{MemberRecord, MemberView};
use crate::util::{
    dec_of, format_table, joined, str_eq, table_text, u64_to_dec, u64_to_dec_pad4, zero_padded4,
    LocalizedString,
};
use vstd::prelude::*;

verus! {

pub fn name() -> (r: LocalizedString)
    ensures
        r.en@ == "user"@,
{
    LocalizedString { en: "user" }
}

pub fn desc() -> (r: LocalizedString)
    ensures
        r.en@ == "Commands accessing the user!"@,
{
    LocalizedString { en: "Commands accessing the user!" }
}

/// The command that reports attributes of guild members.
pub struct GuildUserCmd;

fn member_leaf() -> (r: LeafOption)
    ensures
        r@ == leaf_view(LeafOptionKind::Text, "members"@, "Guild Members"@),
{
    leaf(LeafOptionKind::Text, member(), member_desc())
}

/// The parameter view every sub-command of the user command carries.
pub open spec fn member_leaf_view() -> Seq<LeafOptionView> {
    seq![leaf_view(LeafOptionKind::Text, "members"@, "Guild Members"@)]
}

impl GuildUserCmd {
    pub fn name() -> (r: LocalizedString)
        ensures
            r.en@ == "user"@,
    {
        name()
    }

    /// The schema the user command registers: one sub-command per member
    /// attribute, each with a free-text member query.
    pub open spec fn schema_view() -> CommandSchemaView {
        CommandSchemaView {
            name: "user"@,
            name_locale_en: None,
            description: "Commands accessing the user!"@,
            description_locale_en: None,
            kind: CommandKind::ChatInput,
            options: seq![
                TopOptionView::Sub(sub_view("info"@, "Retrieve information!"@, member_leaf_view())),
                TopOptionView::Sub(sub_view("avatar"@, "Retrieve avatar!"@, member_leaf_view())),
                TopOptionView::Sub(sub_view("roles"@, "Retrieve roles!"@, member_leaf_view())),
                TopOptionView::Sub(sub_view("nick"@, "Retrieve nickname!"@, member_leaf_view())),
                TopOptionView::Sub(sub_view("id"@, "Retrieve id!"@, member_leaf_view())),
                TopOptionView::Sub(
                    sub_view("created"@, "Retrieve when created!"@, member_leaf_view()),
                ),
                TopOptionView::Sub(sub_view("name"@, "Retrieve name!"@, member_leaf_view())),
                TopOptionView::Sub(
                    sub_view("discriminator"@, "Retrieve discriminator!"@, member_leaf_view()),
                ),
                TopOptionView::Sub(
                    sub_view("joined"@, "Retrieve when joined!"@, member_leaf_view()),
                ),
            ],
        }
    }

    pub fn to_application_command() -> (r: CommandSchema)
        ensures
            r@ == Self::schema_view(),
    {
        let mut options: Vec<TopOption> = Vec::new();
        options.push(TopOption::Sub(sub_command_one(info(), info_desc(), member_leaf())));
        options.push(TopOption::Sub(sub_command_one(avatar(), avatar_desc(), member_leaf())));
        options.push(TopOption::Sub(sub_command_one(roles(), roles_desc(), member_leaf())));
        options.push(TopOption::Sub(sub_command_one(nick(), nick_desc(), member_leaf())));
        options.push(TopOption::Sub(sub_command_one(id(), id_desc(), member_leaf())));
        options.push(TopOption::Sub(sub_command_one(created(), created_desc(), member_leaf())));
        options.push(TopOption::Sub(sub_command_one(username(), username_desc(), member_leaf())));
        options.push(
            TopOption::Sub(sub_command_one(discriminator(), discriminator_desc(), member_leaf())),
        );
        options.push(TopOption::Sub(sub_command_one(joined_opt(), joined_desc(), member_leaf())));
        proof {
            assert(options@.map_values(|o: TopOption| o@) =~= Self::schema_view().options);
        }
        CommandSchema {
            name: String::from_str(name().en),
            name_locale_en: None,
            description: String::from_str(desc().en),
            description_locale_en: None,
            kind: CommandKind::ChatInput,
            options: options,
        }
    }
}

/// The member attributes an embed can report.
#[derive(Debug, Clone, Copy, PartialEq, Eq, Structural)]
pub enum GuildUserPropertyTypes {
    Roles,
    Avatar,
    Nick,
    Id,
    Created,
    Joined,
    Discriminator,
    Name,
}

/// The member attribute a raw sub-command name selects, if any.
pub open spec fn user_property_of_name(s: Seq<char>) -> Option<GuildUserPropertyTypes> {
    if s == "roles"@ {
        Some(GuildUserPropertyTypes::Roles)
    } else if s == "avatar"@ {
        Some(GuildUserPropertyTypes::Avatar)
    } else if s == "nick"@ {
        Some(GuildUserPropertyTypes::Nick)
    } else if s == "id"@ {
        Some(GuildUserPropertyTypes::Id)
    } else if s == "created"@ {
        Some(GuildUserPropertyTypes::Created)
    } else if s == "joined"@ {
        Some(GuildUserPropertyTypes::Joined)
    } else if s == "discriminator"@ {
        Some(GuildUserPropertyTypes::Discriminator)
    } else if s == "name"@ {
        Some(GuildUserPropertyTypes::Name)
    } else {
        None
    }
}

impl GuildUserPropertyTypes {
    pub fn from_name(s: &str) -> (r: Result<GuildUserPropertyTypes, ()>)
        ensures
            match user_property_of_name(s@) {
                Some(v) => r == Ok::<GuildUserPropertyTypes, ()>(v),
                None => r is Err,
            },
    {
        if crate::util::str_eq(s, "roles") {
            Ok(GuildUserPropertyTypes::Roles)
        } else if crate::util::str_eq(s, "avatar") {
            Ok(GuildUserPropertyTypes::Avatar)
        } else if crate::util::str_eq(s, "nick") {
            Ok(GuildUserPropertyTypes::Nick)
        } else if crate::util::str_eq(s, "id") {
            Ok(GuildUserPropertyTypes::Id)
        } else if crate::util::str_eq(s, "created") {
            Ok(GuildUserPropertyTypes::Created)
        } else if crate::util::str_eq(s, "joined") {
            Ok(GuildUserPropertyTypes::Joined)
        } else if crate::util::str_eq(s, "discriminator") {
            Ok(GuildUserPropertyTypes::Discriminator)
        } else if crate::util::str_eq(s, "name") {
            Ok(GuildUserPropertyTypes::Name)
        } else {
            Err(())
        }
    }
}

/// How a member is titled: name, a hash, and the four-digit discriminator.
pub open spec fn member_title(m: MemberView) -> Seq<char> {
    m.user_name + "#"@ + zero_padded4(m.discriminator as nat)
}

fn member_title_string(m: &MemberRecord) -> (r: String)
    ensures
        r@ == member_title(m@),
{
    m.user_name.clone().concat("#").concat(u64_to_dec_pad4(m.discriminator as u64).as_str())
}

/// How a nickname is displayed when none is set.
pub open spec fn nick_display(n: Option<Seq<char>>) -> Seq<char> {
    match n {
        Some(s) => s,
        None => "No Nickname"@,
    }
}

fn nick_display_string(n: &Option<String>) -> (r: String)
    ensures
        r@ == nick_display(crate::handler::command_details::opt_text_view(*n)),
{
    match n {
        Some(s) => s.clone(),
        None => String::from_str("No Nickname"),
    }
}

/// The avatar shown for a member: their own, or the platform default.
pub open spec fn avatar_of(m: MemberView) -> Seq<char> {
    match m.avatar_url {
        Some(u) => u,
        None => m.default_avatar_url,
    }
}

fn avatar_string(m: &MemberRecord) -> (r: String)
    ensures
        r@ == avatar_of(m@),
{
    match &m.avatar_url {
        Some(u) => u.clone(),
        None => m.default_avatar_url.clone(),
    }
}

/// The embed after one member attribute is reported into it.
pub open spec fn apply_member_field(e: EmbedView, t: GuildUserPropertyTypes, m: MemberView) -> EmbedView {
    match t {
        GuildUserPropertyTypes::Roles => e.with_field_view(roles_field_view(m.roles, None)),
        GuildUserPropertyTypes::Avatar => e.with_image(avatar_of(m)),
        GuildUserPropertyTypes::Nick => e.with_field("Nickname"@, nick_display(m.nick), true),
        GuildUserPropertyTypes::Id => e.with_field("Id"@, dec_of(m.user_id as nat), true),
        GuildUserPropertyTypes::Created => e.with_field("Created"@, m.created_at, true),
        GuildUserPropertyTypes::Joined => e.with_field("Joined"@, m.joined_at->Some_0, true),
        GuildUserPropertyTypes::Discriminator => e.with_field(
            "Discriminator"@,
            "#"@ + zero_padded4(m.discriminator as nat),
            true,
        ),
        GuildUserPropertyTypes::Name => e.with_field("Name"@, m.user_name, true),
    }
}

/// The embed after a list of member attributes is reported into it, in order.
pub open spec fn apply_member_fields(
    e: EmbedView,
    ts: Seq<GuildUserPropertyTypes>,
    m: MemberView,
) -> EmbedView
    decreases ts.len(),
{
    if ts.len() == 0 {
        e
    } else {
        apply_member_fields(apply_member_field(e, ts[0], m), ts.drop_first(), m)
    }
}

fn create_field_from_embed_types(
    embed_types: &Vec<GuildUserPropertyTypes>,
    member: &MemberRecord,
    embed: &mut EmbedData,
)
    requires
        embed_types@.contains(GuildUserPropertyTypes::Joined) ==> member@.joined_at is Some,
    ensures
        final(embed)@ == apply_member_fields(old(embed)@, embed_types@, member@),
{
    let ghost ts = embed_types@;
    let ghost m = member@;
    let mut i: usize = 0;
    proof {
        assert(ts.skip(0) =~= ts);
    }
    while i < embed_types.len()
        invariant
            0 <= i <= embed_types.len(),
            ts == embed_types@,
            m == member@,
            ts.contains(GuildUserPropertyTypes::Joined) ==> m.joined_at is Some,
            apply_member_fields(old(embed)@, ts, m) == apply_member_fields(
                embed@,
                ts.skip(i as int),
                m,
            ),
        decreases embed_types.len() - i,
    {
        let t = embed_types[i];
        proof {
            assert(ts.skip(i as int)[0] == ts[i as int]);
            assert(ts.skip(i as int).drop_first() =~= ts.skip(i + 1 as int));
        }
        let ghost prev = embed@;
        match t {
            GuildUserPropertyTypes::Roles => {
                let f = roles_to_field(&member.roles, None);
                embed.add_field(f);
            },
            GuildUserPropertyTypes::Avatar => {
                embed.image(avatar_string(member));
            },
            GuildUserPropertyTypes::Nick => {
                embed.field(String::from_str("Nickname"), nick_display_string(&member.nick), true);
            },
            GuildUserPropertyTypes::Id => {
                embed.field(String::from_str("Id"), u64_to_dec(member.user_id), true);
            },
            GuildUserPropertyTypes::Created => {
                embed.field(String::from_str("Created"), member.created_at.clone(), true);
            },
            GuildUserPropertyTypes::Joined => {
                proof {
                    assert(ts.contains(GuildUserPropertyTypes::Joined));
                }
                let j = match &member.joined_at {
                    Some(d) => d.clone(),
                    None => {
                        proof {
                            assert(false);
                        }
                        String::new()
                    },
                };
                embed.field(String::from_str("Joined"), j, true);
            },
            GuildUserPropertyTypes::Discriminator => {
                let text = String::from_str("#").concat(
                    u64_to_dec_pad4(member.discriminator as u64).as_str(),
                );
                embed.field(String::from_str("Discriminator"), text, true);
            },
            GuildUserPropertyTypes::Name => {
                embed.field(String::from_str("Name"), member.user_name.clone(), true);
            },
        }
        proof {
            assert(embed@ == apply_member_field(prev, ts[i as int], m));
        }
        i += 1;
    }
    proof {
        assert(ts.skip(ts.len() as int) =~= Seq::<GuildUserPropertyTypes>::empty());
    }
}

/// The text a member attribute contributes to a table cell.
pub open spec fn member_cell(t: GuildUserPropertyTypes, m: MemberView) -> Seq<char> {
    match t {
        GuildUserPropertyTypes::Roles => joined(role_mentions(m.roles), " | "@),
        GuildUserPropertyTypes::Avatar => avatar_of(m),
        GuildUserPropertyTypes::Nick => nick_display(m.nick),
        GuildUserPropertyTypes::Id => dec_of(m.user_id as nat),
        GuildUserPropertyTypes::Created => m.created_at,
        GuildUserPropertyTypes::Joined => m.joined_at->Some_0,
        GuildUserPropertyTypes::Discriminator => "#"@ + zero_padded4(m.discriminator as nat),
        GuildUserPropertyTypes::Name => m.user_name,
    }
}

/// One member's table row: the titled member, then one cell per attribute.
pub open spec fn member_row(m: MemberView, ts: Seq<GuildUserPropertyTypes>) -> Seq<Seq<char>> {
    seq![member_title(m)] + ts.map_values(|t: GuildUserPropertyTypes| member_cell(t, m))
}

pub open spec fn member_rows(
    ms: Seq<MemberView>,
    ts: Seq<GuildUserPropertyTypes>,
) -> Seq<Seq<Seq<char>>> {
    ms.map_values(|m: MemberView| member_row(m, ts))
}

/// A rendered table, fenced as a code block.
pub open spec fn table_wrap(rows: Seq<Seq<Seq<char>>>) -> Seq<char> {
    "```\n"@ + table_text(rows) + "\n```"@
}

fn member_cell_string(t: GuildUserPropertyTypes, m: &MemberRecord) -> (r: String)
    requires
        t is Joined ==> m@.joined_at is Some,
    ensures
        r@ == member_cell(t, m@),
{
    match t {
        GuildUserPropertyTypes::Roles => roles_to_text(&m.roles),
        GuildUserPropertyTypes::Avatar => avatar_string(m),
        GuildUserPropertyTypes::Nick => nick_display_string(&m.nick),
        GuildUserPropertyTypes::Id => u64_to_dec(m.user_id),
        GuildUserPropertyTypes::Created => m.created_at.clone(),
        GuildUserPropertyTypes::Joined => match &m.joined_at {
            Some(d) => d.clone(),
            None => {
                proof {
                    assert(false);
                }
                String::new()
            },
        },
        GuildUserPropertyTypes::Discriminator => String::from_str("#").concat(
            u64_to_dec_pad4(m.discriminator as u64).as_str(),
        ),
        GuildUserPropertyTypes::Name => m.user_name.clone(),
    }
}

/// Renders the member list as a fenced text table, one row per member and
/// one column per requested attribute beside the member's title.
pub fn create_table_from_embed_types(
    embed_types: &Vec<GuildUserPropertyTypes>,
    members: &Vec<MemberRecord>,
) -> (r: String)
    requires
        embed_types@.contains(GuildUserPropertyTypes::Joined) ==> forall|k: int|
            0 <= k < members@.len() ==> (#[trigger] members@[k])@.joined_at is Some,
    ensures
        r@ == table_wrap(
            member_rows(members@.map_values(|m: MemberRecord| m@), embed_types@),
        ),
{
    let ghost ts = embed_types@;
    let ghost ms = members@.map_values(|m: MemberRecord| m@);
    let mut data: Vec<Vec<String>> = Vec::new();
    let mut i: usize = 0;
    while i < members.len()
        invariant
            0 <= i <= members.len(),
            ts == embed_types@,
            ms == members@.map_values(|m: MemberRecord| m@),
            ts.contains(GuildUserPropertyTypes::Joined) ==> forall|k: int|
                0 <= k < members@.len() ==> (#[trigger] members@[k])@.joined_at is Some,
            crate::util::rows_view(data@) == member_rows(ms.take(i as int), ts),
        decreases members.len() - i,
    {
        let member = &members[i];
        let mut row: Vec<String> = Vec::new();
        row.push(member_title_string(member));
        let mut j: usize = 0;
        proof {
            assert(row@.map_values(|c: String| c@) =~= seq![member_title(member@)] + ts.take(
                0,
            ).map_values(|t: GuildUserPropertyTypes| member_cell(t, member@)));
        }
        while j < embed_types.len()
            invariant
                0 <= j <= embed_types.len(),
                ts == embed_types@,
                i < members@.len(),
                member == &members@[i as int],
                ts.contains(GuildUserPropertyTypes::Joined) ==> member@.joined_at is Some,
                row@.map_values(|c: String| c@) == seq![member_title(member@)] + ts.take(
                    j as int,
                ).map_values(|t: GuildUserPropertyTypes| member_cell(t, member@)),
            decreases embed_types.len() - j,
        {
            let t = embed_types[j];
            proof {
                if t is Joined {
                    assert(ts.contains(GuildUserPropertyTypes::Joined));
                }
            }
            let ghost prev = row@.map_values(|c: String| c@);
            row.push(member_cell_string(t, member));
            proof {
                assert(row@.map_values(|c: String| c@) =~= prev.push(member_cell(t, member@)));
                assert(seq![member_title(member@)] + ts.take(j + 1 as int).map_values(
                    |t: GuildUserPropertyTypes| member_cell(t, member@),
                ) =~= prev.push(member_cell(ts[j as int], member@)));
            }
            j += 1;
        }
        proof {
            assert(ts.take(ts.len() as int) =~= ts);
            assert(row@.map_values(|c: String| c@) == member_row(member@, ts));
        }
        let ghost prev_rows = crate::util::rows_view(data@);
        data.push(row);
        proof {
            assert(crate::util::rows_view(data@) =~= prev_rows.push(member_row(ms[i as int], ts)));
            assert(member_rows(ms.take(i + 1 as int), ts) =~= prev_rows.push(
                member_row(ms[i as int], ts),
            ));
        }
        i += 1;
    }
    proof {
        assert(ms.take(members@.len() as int) =~= ms);
    }
    let text = format_table(&data);
    String::from_str("```\n").concat(text.as_str()).concat("\n```")
}

/// The embed the user command replies with for a single member.
pub open spec fn member_embed_view(embed_type: Seq<char>, m: MemberView) -> EmbedView {
    let base = empty_embed().with_title(member_title(m)).with_description(
        "Created: "@ + m.created_at,
    );
    let based = if embed_type != "avatar"@ {
        base.with_thumbnail(avatar_of(m))
    } else {
        base
    };
    if embed_type == "info"@ {
        apply_member_fields(
            based,
            seq![
                GuildUserPropertyTypes::Nick,
                GuildUserPropertyTypes::Id,
                GuildUserPropertyTypes::Nick,
                GuildUserPropertyTypes::Roles,
            ],
            m,
        )
    } else {
        match user_property_of_name(embed_type) {
            Some(t) => apply_member_fields(based, seq![t], m),
            None => based,
        }
    }
}

/// Builds the reply embed for one member: title and creation date, the
/// avatar as thumbnail, then the fields the selected sub-command asks for.
pub fn create_embed_single_member(embed_type: &String, member: &MemberRecord) -> (r: EmbedData)
    requires
        embed_type@ == "joined"@ ==> member@.joined_at is Some,
    ensures
        r@ == member_embed_view(embed_type@, member@),
{
    let mut embed = EmbedData::new();
    embed.title(member_title_string(member));
    embed.description(String::from_str("Created: ").concat(member.created_at.as_str()));
    if !str_eq(embed_type.as_str(), "avatar") {
        embed.thumbnail(avatar_string(member));
    }
    if str_eq(embed_type.as_str(), "info") {
        let mut embed_types: Vec<GuildUserPropertyTypes> = Vec::new();
        embed_types.push(GuildUserPropertyTypes::Nick);
        embed_types.push(GuildUserPropertyTypes::Id);
        embed_types.push(GuildUserPropertyTypes::Nick);
        embed_types.push(GuildUserPropertyTypes::Roles);
        proof {
            assert(embed_types@ =~= seq![
                GuildUserPropertyTypes::Nick,
                GuildUserPropertyTypes::Id,
                GuildUserPropertyTypes::Nick,
                GuildUserPropertyTypes::Roles,
            ]);
            assert(!embed_types@.contains(GuildUserPropertyTypes::Joined));
        }
        create_field_from_embed_types(&embed_types, member, &mut embed);
    } else {
        match GuildUserPropertyTypes::from_name(embed_type.as_str()) {
            Ok(t) => {
                let mut embed_types: Vec<GuildUserPropertyTypes> = Vec::new();
                embed_types.push(t);
                proof {
                    assert(embed_types@ =~= seq![t]);
                    if embed_types@.contains(GuildUserPropertyTypes::Joined) {
                        assert(t == GuildUserPropertyTypes::Joined);
                        reveal_strlit("joined");
                    }
                }
                create_field_from_embed_types(&embed_types, member, &mut embed);
            },
            Err(_) => {},
        }
    }
    embed
}

/// The table content the user command replies with for several members.
pub open spec fn members_content_view(embed_type: Seq<char>, ms: Seq<MemberView>) -> Seq<char> {
    if embed_type == "info"@ {
        table_wrap(
            member_rows(
                ms,
                seq![
                    GuildUserPropertyTypes::Nick,
                    GuildUserPropertyTypes::Id,
                    GuildUserPropertyTypes::Roles,
                ],
            ),
        )
    } else {
        match user_property_of_name(embed_type) {
            Some(t) => table_wrap(member_rows(ms, seq![t])),
            None => Seq::empty(),
        }
    }
}

/// Renders several members as one table, one row per member.
pub fn create_content_multiple_members(embed_type: &str, members: &Vec<MemberRecord>) -> (r:
    String)
    requires
        embed_type@ == "joined"@ ==> forall|k: int|
            0 <= k < members@.len() ==> (#[trigger] members@[k])@.joined_at is Some,
    ensures
        r@ == members_content_view(embed_type@, members@.map_values(|m: MemberRecord| m@)),
{
    if str_eq(embed_type, "info") {
        let mut embed_types: Vec<GuildUserPropertyTypes> = Vec::new();
        embed_types.push(GuildUserPropertyTypes::Nick);
        embed_types.push(GuildUserPropertyTypes::Id);
        embed_types.push(GuildUserPropertyTypes::Roles);
        proof {
            assert(embed_types@ =~= seq![
                GuildUserPropertyTypes::Nick,
                GuildUserPropertyTypes::Id,
                GuildUserPropertyTypes::Roles,
            ]);
            assert(!embed_types@.contains(GuildUserPropertyTypes::Joined));
        }
        create_table_from_embed_types(&embed_types, members)
    } else {
        match GuildUserPropertyTypes::from_name(embed_type) {
            Ok(t) => {
                let mut embed_types: Vec<GuildUserPropertyTypes> = Vec::new();
                embed_types.push(t);
                proof {
                    assert(embed_types@ =~= seq![t]);
                    if embed_types@.contains(GuildUserPropertyTypes::Joined) {
                        assert(t == GuildUserPropertyTypes::Joined);
                        reveal_strlit("joined");
                    }
                }
                create_table_from_embed_types(&embed_types, members)
            },
            Err(_) => String::new(),
        }
    }
}

/// The embed shown when a query matched nobody.
pub open spec fn no_user_embed() -> EmbedView {
    empty_embed().with_title("Error"@).with_description("No user found!"@).with_color(COLOR_RED)
}

/// The reply to the user command: an error embed when nobody matched, a
/// single detailed embed for one member, and a table for several.
pub fn create_response_members(embed_type: &String, members: &Vec<MemberRecord>) -> (r: (
    String,
    Vec<EmbedData>,
))
    requires
        embed_type@ == "joined"@ ==> forall|k: int|
            0 <= k < members@.len() ==> (#[trigger] members@[k])@.joined_at is Some,
    ensures
        ({
            let ms = members@.map_values(|m: MemberRecord| m@);
            if ms.len() == 0 {
                r.0@.len() == 0 && r.1@.map_values(|e: EmbedData| e@) == seq![no_user_embed()]
            } else if ms.len() == 1 {
                r.0@.len() == 0 && r.1@.map_values(|e: EmbedData| e@) == seq![
                    member_embed_view(embed_type@, ms[0]),
                ]
            } else {
                r.1@.len() == 0 && r.0@ == members_content_view(embed_type@, ms)
            }
        }),
{
    let mut embeds: Vec<EmbedData> = Vec::new();
    let mut content = String::new();
    if members.len() == 0 {
        let mut embed = EmbedData::new();
        embed.title(String::from_str("Error"));
        embed.description(String::from_str("No user found!"));
        embed.color(COLOR_RED);
        embeds.push(embed);
        proof {
            assert(embeds@.map_values(|e: EmbedData| e@) =~= seq![no_user_embed()]);
        }
    } else if members.len() == 1 {
        let embed = create_embed_single_member(embed_type, &members[0]);
        embeds.push(embed);
        proof {
            let ms = members@.map_values(|m: MemberRecord| m@);
            assert(embeds@.map_values(|e: EmbedData| e@) =~= seq![
                member_embed_view(embed_type@, ms[0]),
            ]);
        }
    } else {
        content = create_content_multiple_members(embed_type.as_str(), members);
    }
    (content, embeds)
}

} // verus!
