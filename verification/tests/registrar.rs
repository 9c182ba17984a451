use discord_bot::commands::guild::GuildCommands;
use discord_bot::commands::Scope;
use discord_bot::handler::commands::{CommandRecord, DispatchTable};
use discord_bot::handler::{Handler, HandlerError};

fn record(id: u64, name: &str) -> CommandRecord {
    CommandRecord { id, name: String::from(name) }
}

fn full_guild(base: u64) -> Vec<CommandRecord> {
    vec![
        record(base + 1, "server"),
        record(base + 2, "fear"),
        record(base + 3, "ml"),
        record(base + 4, "user"),
    ]
}

#[test]
fn lookup_before_registration_is_an_internal_fault() {
    let table = DispatchTable::new();
    let r = table.lookup(Scope::Guild, 42, "user");
    assert_eq!(r, Err(HandlerError::TypeMapNotFound));
}

#[test]
fn registration_makes_every_returned_id_resolve() {
    let handler = Handler::new().unwrap();
    let mut table = DispatchTable::new();
    let guilds = vec![full_guild(100), full_guild(200)];
    handler
        .setup_guild_commands(&mut table, true, &guilds)
        .unwrap();
    for base in [100u64, 200u64] {
        assert_eq!(table.lookup(Scope::Guild, base + 1, "server"), Ok(GuildCommands::Server));
        assert_eq!(table.lookup(Scope::Guild, base + 2, "fear"), Ok(GuildCommands::Stock));
        assert_eq!(table.lookup(Scope::Guild, base + 3, "ml"), Ok(GuildCommands::ML));
        assert_eq!(table.lookup(Scope::Guild, base + 4, "user"), Ok(GuildCommands::User));
    }
}

#[test]
fn unissued_id_is_unrecognized_not_a_fault() {
    let handler = Handler::new().unwrap();
    let mut table = DispatchTable::new();
    handler
        .setup_guild_commands(&mut table, true, &vec![full_guild(100)])
        .unwrap();
    let r = table.lookup(Scope::Guild, 999, "mystery");
    assert_eq!(r, Err(HandlerError::UnrecognizedCommand(String::from("mystery"))));
}

#[test]
fn empty_guild_set_installs_an_empty_table() {
    let handler = Handler::new().unwrap();
    let mut table = DispatchTable::new();
    handler
        .setup_guild_commands(&mut table, false, &vec![])
        .unwrap();
    // The table exists but holds nothing: unknown ids are unrecognized, not
    // an internal fault.
    let r = table.lookup(Scope::Guild, 1, "user");
    assert_eq!(r, Err(HandlerError::UnrecognizedCommand(String::from("user"))));
}

#[test]
fn guilds_without_results_abort_setup() {
    let handler = Handler::new().unwrap();
    let mut table = DispatchTable::new();
    let r = handler.setup_guild_commands(&mut table, true, &vec![]);
    assert_eq!(r, Err(HandlerError::CommandSetup));
    // The table was left untouched.
    assert_eq!(table.lookup(Scope::Guild, 1, "user"), Err(HandlerError::TypeMapNotFound));
}

#[test]
fn unknown_declared_name_aborts_setup_wholesale() {
    let handler = Handler::new().unwrap();
    let mut table = DispatchTable::new();
    let guilds = vec![full_guild(100), vec![record(201, "intruder")]];
    let r = handler.setup_guild_commands(&mut table, true, &guilds);
    assert_eq!(r, Err(HandlerError::CommandSetup));
    // Nothing of the first guild was installed either.
    assert_eq!(table.lookup(Scope::Guild, 101, "server"), Err(HandlerError::TypeMapNotFound));
}

#[test]
fn re_registration_replaces_the_table_wholesale() {
    let handler = Handler::new().unwrap();
    let mut table = DispatchTable::new();
    handler
        .setup_guild_commands(&mut table, true, &vec![full_guild(100)])
        .unwrap();
    assert_eq!(table.lookup(Scope::Guild, 101, "server"), Ok(GuildCommands::Server));
    handler
        .setup_guild_commands(&mut table, true, &vec![full_guild(300)])
        .unwrap();
    // Only the new mapping is visible: no entry of the old one survives.
    assert_eq!(table.lookup(Scope::Guild, 301, "server"), Ok(GuildCommands::Server));
    assert_eq!(
        table.lookup(Scope::Guild, 101, "server"),
        Err(HandlerError::UnrecognizedCommand(String::from("server")))
    );
}

#[test]
fn later_records_overwrite_an_id_reused_within_a_cycle() {
    let handler = Handler::new().unwrap();
    let mut table = DispatchTable::new();
    let guilds = vec![vec![record(7, "server"), record(7, "user")]];
    handler
        .setup_guild_commands(&mut table, true, &guilds)
        .unwrap();
    assert_eq!(table.lookup(Scope::Guild, 7, "user"), Ok(GuildCommands::User));
}
