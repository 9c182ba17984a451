use discord_bot::commands::guild::ml::MLCmd;
use discord_bot::commands::guild::server::GuildServerCmd;
use discord_bot::commands::guild::stats::GuildStatsCmd;
use discord_bot::commands::guild::stock::StockCmd;
use discord_bot::commands::guild::user::GuildUserCmd;
use discord_bot::commands::guild::{GuildCommands, InvalidGuildCommand};
use discord_bot::commands::{
    CommandKind, CommandSchema, CreateApplicationCommandExt, CreateApplicationCommandOptionExt,
    LeafOptionKind, SubCommandOption, TopOption,
};
use discord_bot::util::LocalizedString;

#[test]
fn variant_names() {
    assert_eq!(GuildCommands::Server.name().en, "server");
    assert_eq!(GuildCommands::Stock.name().en, "fear");
    assert_eq!(GuildCommands::ML.name().en, "ml");
    assert_eq!(GuildCommands::User.name().en, "user");
}

#[test]
fn any_eq_matches_only_the_text() {
    let s = LocalizedString { en: "fear" };
    assert!(s.any_eq("fear"));
    assert!(!s.any_eq("fea"));
    assert!(!s.any_eq("fears"));
    assert!(!s.any_eq(""));
}

#[test]
fn from_name_round_trips_every_variant() {
    for v in [
        GuildCommands::Server,
        GuildCommands::Stock,
        GuildCommands::ML,
        GuildCommands::User,
    ] {
        let name = v.name().en;
        assert_eq!(GuildCommands::from_name(name).unwrap(), v);
    }
}

#[test]
fn from_name_rejects_unknown_names() {
    let err: InvalidGuildCommand = GuildCommands::from_name("bogus").unwrap_err();
    assert_eq!(err.0, "bogus");
    assert!(GuildCommands::from_name("stock").is_err());
    assert!(GuildCommands::from_name("").is_err());
}

#[test]
fn user_schema_shape() {
    let schema = GuildUserCmd::to_application_command();
    assert_eq!(schema.name, "user");
    assert_eq!(schema.description, "Commands accessing the user!");
    assert!(matches!(schema.kind, CommandKind::ChatInput));
    assert_eq!(schema.options.len(), 9);
    let names: Vec<&str> = schema
        .options
        .iter()
        .map(|o| match o {
            TopOption::Sub(s) => s.name.as_str(),
            TopOption::Group(g) => g.name.as_str(),
        })
        .collect();
    assert_eq!(
        names,
        vec!["info", "avatar", "roles", "nick", "id", "created", "name", "discriminator", "joined"]
    );
    for o in &schema.options {
        match o {
            TopOption::Sub(s) => {
                assert_eq!(s.options.len(), 1);
                assert_eq!(s.options[0].name, "members");
                assert_eq!(s.options[0].description, "Guild Members");
                assert!(matches!(s.options[0].kind, LeafOptionKind::Text));
            }
            TopOption::Group(_) => panic!("the user command has no groups"),
        }
    }
}

#[test]
fn server_schema_shape() {
    let schema = GuildServerCmd::to_application_command();
    assert_eq!(schema.name, "server");
    assert_eq!(schema.options.len(), 10);
    match &schema.options[5] {
        TopOption::Group(g) => {
            assert_eq!(g.name, "channel");
            assert_eq!(g.options.len(), 5);
            let subs: Vec<&str> = g.options.iter().map(|s| s.name.as_str()).collect();
            assert_eq!(subs, vec!["afk", "widget", "system", "rules", "custom"]);
            let custom = &g.options[4];
            assert_eq!(custom.options.len(), 1);
            assert_eq!(custom.options[0].name, "channel");
            assert!(matches!(custom.options[0].kind, LeafOptionKind::Channel));
        }
        TopOption::Sub(_) => panic!("the sixth option is the channel group"),
    }
}

#[test]
fn ml_schema_shape() {
    let schema = MLCmd::to_application_command();
    assert_eq!(schema.name, "ml");
    assert_eq!(schema.options.len(), 5);
    let names: Vec<&str> = schema
        .options
        .iter()
        .map(|o| match o {
            TopOption::Sub(s) => s.name.as_str(),
            TopOption::Group(g) => g.name.as_str(),
        })
        .collect();
    assert_eq!(names, vec!["and", "or", "nand", "nor", "xor"]);
}

#[test]
fn stock_schema_shape() {
    let schema = StockCmd::to_application_command();
    assert_eq!(schema.name, "fear");
    assert_eq!(schema.description, "Commands accessing the fear-index!");
    assert_eq!(schema.options.len(), 2);
}

#[test]
fn stats_schema_shape() {
    let schema = GuildStatsCmd::to_application_command();
    assert_eq!(schema.name, "stats");
    assert_eq!(schema.options.len(), 1);
    match &schema.options[0] {
        TopOption::Sub(s) => {
            assert_eq!(s.name, "guild");
            assert_eq!(s.options[0].name, "emote");
        }
        TopOption::Group(_) => panic!("the stats command has no groups"),
    }
}

#[test]
fn application_commands_follow_catalog_order() {
    let all: Vec<CommandSchema> = GuildCommands::application_commands();
    let names: Vec<&str> = all.iter().map(|c| c.name.as_str()).collect();
    assert_eq!(names, vec!["server", "fear", "ml", "user"]);
}

#[test]
fn localized_name_sets_text_in_every_locale() {
    let schema = StockCmd::to_application_command();
    let renamed = schema.localized_name(LocalizedString { en: "dread" });
    assert_eq!(renamed.name, "dread");
    assert_eq!(renamed.name_locale_en.as_deref(), Some("dread"));
    let described = renamed.localized_desc(LocalizedString { en: "Fear itself" });
    assert_eq!(described.description, "Fear itself");
    assert_eq!(described.description_locale_en.as_deref(), Some("Fear itself"));
}

#[test]
fn localized_option_name_sets_text_in_every_locale() {
    let schema = GuildStatsCmd::to_application_command();
    let sub: SubCommandOption = match schema.options.into_iter().next().unwrap() {
        TopOption::Sub(s) => s,
        TopOption::Group(_) => panic!("the stats command has no groups"),
    };
    let renamed = sub.localized_name(LocalizedString { en: "everywhere" });
    assert_eq!(renamed.name, "everywhere");
    assert_eq!(renamed.name_locale_en.as_deref(), Some("everywhere"));
}
