use discord_bot::handler::command_details::{
    parse_command_array, parse_command_members, split_tokens, str_contains_sub, CommandNode,
    MemberRecord, OptionValue,
};

fn node(value: OptionValue) -> CommandNode {
    CommandNode { name: String::from("members"), value, options: Vec::new() }
}

fn member(id: u64, name: &str, nick: Option<&str>) -> MemberRecord {
    MemberRecord {
        user_id: id,
        user_name: String::from(name),
        discriminator: 1,
        nick: nick.map(String::from),
        roles: vec![],
        joined_at: None,
        created_at: String::from("2020-01-01"),
        avatar_url: None,
        default_avatar_url: String::from("https://example.invalid/default.png"),
    }
}

#[test]
fn multi_value_text_splits_on_single_spaces() {
    let r = parse_command_array(&node(OptionValue::Text(String::from("AAPL MSFT"))));
    assert_eq!(r, vec![String::from("AAPL"), String::from("MSFT")]);
}

#[test]
fn empty_text_yields_one_empty_token() {
    let r = parse_command_array(&node(OptionValue::Text(String::new())));
    assert_eq!(r, vec![String::new()]);
}

#[test]
fn absent_value_yields_no_tokens() {
    let r = parse_command_array(&node(OptionValue::Absent));
    assert!(r.is_empty());
}

#[test]
fn value_without_text_reads_as_empty_text() {
    let r = parse_command_array(&node(OptionValue::UserRef(9)));
    assert_eq!(r, vec![String::new()]);
}

#[test]
fn consecutive_spaces_keep_their_empty_tokens() {
    assert_eq!(split_tokens(" "), vec![String::new(), String::new()]);
    assert_eq!(
        split_tokens("a  b"),
        vec![String::from("a"), String::new(), String::from("b")]
    );
}

#[test]
fn substring_search_finds_inner_matches() {
    assert!(str_contains_sub("banana", "nan"));
    assert!(str_contains_sub("banana", ""));
    assert!(!str_contains_sub("banana", "nab"));
    assert!(!str_contains_sub("", "a"));
}

#[test]
fn fuzzy_member_resolution_unions_name_and_nick_matches() {
    let members = vec![
        member(1, "Ann", None),
        member(2, "bob", Some("Annie")),
    ];
    let r = parse_command_members(
        &node(OptionValue::Text(String::from("ann"))),
        &members,
        &vec![],
    );
    let ids: Vec<u64> = r.iter().map(|m| m.user_id).collect();
    assert_eq!(ids, vec![1, 2]);
}

#[test]
fn fuzzy_member_resolution_is_case_insensitive_both_ways() {
    let members = vec![member(3, "ANNETTE", None)];
    let r = parse_command_members(
        &node(OptionValue::Text(String::from("Ann"))),
        &members,
        &vec![],
    );
    assert_eq!(r.len(), 1);
}

#[test]
fn exact_id_matches_a_member() {
    let members = vec![member(41, "carol", None), member(5, "dave", None)];
    let r = parse_command_members(
        &node(OptionValue::Text(String::from("5"))),
        &members,
        &vec![],
    );
    let ids: Vec<u64> = r.iter().map(|m| m.user_id).collect();
    assert_eq!(ids, vec![5]);
}

#[test]
fn pre_resolved_members_are_included() {
    let members = vec![member(1, "carol", None), member(2, "dave", None)];
    let r = parse_command_members(
        &node(OptionValue::Text(String::from("zzz"))),
        &members,
        &vec![2],
    );
    let ids: Vec<u64> = r.iter().map(|m| m.user_id).collect();
    assert_eq!(ids, vec![2]);
}

#[test]
fn empty_query_matches_everyone() {
    let members = vec![member(1, "carol", None), member(2, "dave", None)];
    let r = parse_command_members(&node(OptionValue::Absent), &members, &vec![]);
    assert_eq!(r.len(), 2);
}
