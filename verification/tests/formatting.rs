use discord_bot::builders::embed::COLOR_RED;
use discord_bot::builders::roles::{roles_to_field, roles_to_text};
use discord_bot::commands::guild::ml::ml_embed_title;
use discord_bot::commands::guild::server::{
    create_embed_single, create_response_server, GuildSnapshot, NsfwLevel,
};
use discord_bot::commands::guild::stock::{
    create_content_multiple_stocks, create_embed_single_stock, create_response_stocks,
    QuoteSnapshot,
};
use discord_bot::commands::guild::user::{
    create_content_multiple_members, create_embed_single_member, create_response_members,
    create_table_from_embed_types,
};
use discord_bot::handler::command_details::{
    CommandDataOption, CommandNode, MemberRecord, OptionValue,
};
use discord_bot::util::{u64_to_dec, u64_to_dec_pad4};

fn top(name: &str, subs: Vec<CommandNode>) -> CommandDataOption {
    CommandDataOption { name: String::from(name), value: OptionValue::Absent, options: subs }
}

fn sub_node(name: &str) -> CommandNode {
    CommandNode { name: String::from(name), value: OptionValue::Absent, options: Vec::new() }
}

fn guild() -> GuildSnapshot {
    GuildSnapshot {
        id: 1000,
        name: String::from("The Guild"),
        description: Some(String::from("A fine place")),
        owner_id: 77,
        roles: vec![1, 2],
        nsfw_level: NsfwLevel::Safe,
        icon_url: Some(String::from("https://example.invalid/icon.png")),
        afk_channel_id: Some(5),
        rules_channel_id: None,
        widget_channel_id: None,
        system_channel_id: Some(6),
    }
}

fn member() -> MemberRecord {
    MemberRecord {
        user_id: 9,
        user_name: String::from("Ann"),
        discriminator: 7,
        nick: None,
        roles: vec![1],
        joined_at: Some(String::from("2021-05-01")),
        created_at: String::from("2020-01-01"),
        avatar_url: None,
        default_avatar_url: String::from("https://example.invalid/default.png"),
    }
}

#[test]
fn decimal_rendering() {
    assert_eq!(u64_to_dec(0), "0");
    assert_eq!(u64_to_dec(7), "7");
    assert_eq!(u64_to_dec(90334), "90334");
    assert_eq!(u64_to_dec(u64::MAX), "18446744073709551615");
}

#[test]
fn discriminators_are_zero_padded_to_four() {
    assert_eq!(u64_to_dec_pad4(7), "0007");
    assert_eq!(u64_to_dec_pad4(42), "0042");
    assert_eq!(u64_to_dec_pad4(123), "0123");
    assert_eq!(u64_to_dec_pad4(4321), "4321");
    assert_eq!(u64_to_dec_pad4(54321), "54321");
}

#[test]
fn roles_render_as_mentions() {
    assert_eq!(roles_to_text(&vec![1, 2]), "<@&1> | <@&2>");
    assert_eq!(roles_to_text(&vec![]), "");
    let field = roles_to_field(&vec![1, 2], None);
    assert_eq!(field.name, "**Roles (``2``)**");
    assert_eq!(field.value, "<@&1> ``|`` <@&2>");
    assert!(!field.inline);
    assert!(roles_to_field(&vec![], Some(true)).inline);
}

#[test]
fn server_owner_embed() {
    let embed = create_embed_single(&top("owner", vec![]), guild());
    assert_eq!(embed.title.as_deref(), Some("The Guild"));
    assert_eq!(embed.description.as_deref(), Some("A fine place"));
    assert_eq!(embed.thumbnail.as_deref(), Some("https://example.invalid/icon.png"));
    assert_eq!(embed.fields.len(), 1);
    assert_eq!(embed.fields[0].name, "Owner");
    assert_eq!(embed.fields[0].value, "<@77>");
    assert!(embed.fields[0].inline);
}

#[test]
fn server_avatar_embed_skips_the_thumbnail() {
    let embed = create_embed_single(&top("avatar", vec![]), guild());
    assert_eq!(embed.thumbnail, None);
    assert_eq!(embed.image.as_deref(), Some("https://example.invalid/icon.png"));
}

#[test]
fn server_info_embed_reports_owner_id_and_roles() {
    let embeds = create_response_server(&top("info", vec![]), guild());
    assert_eq!(embeds.len(), 1);
    let names: Vec<&str> = embeds[0].fields.iter().map(|f| f.name.as_str()).collect();
    assert_eq!(names, vec!["Owner", "Id", "**Roles (``2``)**"]);
    assert_eq!(embeds[0].fields[1].value, "1000");
}

#[test]
fn server_channel_embed_reads_the_selected_channel() {
    let embed = create_embed_single(&top("channel", vec![sub_node("afk")]), guild());
    assert_eq!(embed.fields.len(), 1);
    assert_eq!(embed.fields[0].name, "AFK Channel");
    assert_eq!(embed.fields[0].value, "<#5>");
    let none = create_embed_single(&top("channel", vec![sub_node("rules")]), guild());
    assert_eq!(none.fields[0].value, "No channel defined!");
    let bare = create_embed_single(&top("channel", vec![]), guild());
    assert!(bare.fields.is_empty());
}

#[test]
fn single_member_embed() {
    let embed = create_embed_single_member(&String::from("nick"), &member());
    assert_eq!(embed.title.as_deref(), Some("Ann#0007"));
    assert_eq!(embed.description.as_deref(), Some("Created: 2020-01-01"));
    assert_eq!(embed.thumbnail.as_deref(), Some("https://example.invalid/default.png"));
    assert_eq!(embed.fields.len(), 1);
    assert_eq!(embed.fields[0].name, "Nickname");
    assert_eq!(embed.fields[0].value, "No Nickname");
}

#[test]
fn no_member_yields_the_error_embed() {
    let (content, embeds) = create_response_members(&String::from("info"), &vec![]);
    assert!(content.is_empty());
    assert_eq!(embeds.len(), 1);
    assert_eq!(embeds[0].title.as_deref(), Some("Error"));
    assert_eq!(embeds[0].description.as_deref(), Some("No user found!"));
    assert_eq!(embeds[0].color, Some(COLOR_RED));
}

#[test]
fn several_members_yield_a_fenced_table() {
    let mut second = member();
    second.user_id = 10;
    second.user_name = String::from("bob");
    let members = vec![member(), second];
    let (content, embeds) = create_response_members(&String::from("id"), &members);
    assert!(embeds.is_empty());
    assert!(content.starts_with("```\n"));
    assert!(content.ends_with("\n```"));
    assert!(content.contains("Ann#0007"));
    assert!(content.contains("bob#0007"));
    assert!(content.contains('9'));
    assert!(content.contains("10"));
    // The table was rendered, not echoed: it carries drawn borders.
    assert!(content.contains('│'));
    assert!(content.contains('┌'));
}

#[test]
fn member_table_rows_follow_the_member_order() {
    let mut second = member();
    second.user_id = 10;
    second.user_name = String::from("bob");
    let table = create_table_from_embed_types(&vec![], &vec![member(), second]);
    let ann = table.find("Ann#0007").unwrap();
    let bob = table.find("bob#0007").unwrap();
    assert!(ann < bob);
}

#[test]
fn unknown_member_table_type_yields_nothing() {
    let content = create_content_multiple_members("mystery", &vec![member(), member()]);
    assert_eq!(content, "");
}

#[test]
fn single_stock_embed_reports_the_quote() {
    let quote = Ok(QuoteSnapshot {
        exchange_name: String::from("NMS"),
        high: 12,
        low: 10,
        open_price: 11,
        close_price: 12,
    });
    let embed = create_embed_single_stock("history", &String::from("AAPL"), &quote);
    assert_eq!(embed.title.as_deref(), Some("AAPL"));
    assert_eq!(embed.description.as_deref(), Some("NMS (1d)"));
    assert_eq!(embed.fields.len(), 2);
    assert_eq!(embed.fields[0].name, "High / Low");
    assert_eq!(embed.fields[0].value, "12 / 10");
    assert_eq!(embed.fields[1].name, "Open / Close");
    assert_eq!(embed.fields[1].value, "11 / 12");
    assert!(!embed.fields[0].inline);
}

#[test]
fn failed_quote_fetch_reports_the_error_text() {
    let quote = Err(String::from("no such symbol"));
    let embed = create_embed_single_stock("history", &String::from("ZZZZ"), &quote);
    assert_eq!(embed.description.as_deref(), Some("no such symbol"));
    assert!(embed.fields.is_empty());
}

#[test]
fn no_stock_yields_the_error_embed() {
    let quote = Err(String::from("unused"));
    let (content, embeds) = create_response_stocks("info", &vec![], &quote);
    assert!(content.is_empty());
    assert_eq!(embeds[0].title.as_deref(), Some("Error"));
    assert_eq!(embeds[0].description.as_deref(), Some("No stock found!"));
}

#[test]
fn several_stocks_yield_a_fenced_table() {
    let stocks = vec![String::from("AAPL"), String::from("MSFT")];
    let content = create_content_multiple_stocks("history", &stocks);
    assert!(content.starts_with("```\n"));
    assert!(content.contains("AAPL"));
    assert!(content.contains("MSFT"));
    assert!(content.contains('│'));
}

#[test]
fn ml_reply_titles_carry_the_gate() {
    assert_eq!(ml_embed_title("and"), "ML (and)");
    assert_eq!(ml_embed_title("xor"), "ML (xor)");
}
