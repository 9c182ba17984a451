pub mod ml;
pub mod server;
pub mod stats;
pub mod stock;
pub mod user;

use crate::commands::{CommandSchema, CommandSchemaView};
use crate::util::LocalizedString;
use vstd::prelude::*;

verus! {

/// The closed set of guild-scope command variants. The catalog order below
/// is the stable order in which schemas are sent to the platform.
#[derive(Debug, Clone, Copy, PartialEq, Eq, Hash, Structural)]
pub enum GuildCommands {
    Server,
    Stock,
    ML,
    User,
}

impl GuildCommands {
    /// The programmatic name of a variant: the sole basis for matching an
    /// external name back to a variant.
    pub open spec fn name_spec(self) -> Seq<char> {
        match self {
            GuildCommands::Server => "server"@,
            GuildCommands::Stock => "fear"@,
            GuildCommands::ML => "ml"@,
            GuildCommands::User => "user"@,
        }
    }

    pub fn name(self) -> (r: LocalizedString)
        ensures
            r.en@ == self.name_spec(),
    {
        match self {
            GuildCommands::User => user::name(),
            GuildCommands::Stock => stock::name(),
            GuildCommands::ML => ml::name(),
            GuildCommands::Server => server::name(),
        }
    }

    /// The registration schema of a variant.
    pub open spec fn schema_spec(self) -> CommandSchemaView {
        match self {
            GuildCommands::Server => server::GuildServerCmd::schema_view(),
            GuildCommands::Stock => stock::StockCmd::schema_view(),
            GuildCommands::ML => ml::MLCmd::schema_view(),
            GuildCommands::User => user::GuildUserCmd::schema_view(),
        }
    }

    /// Builds the registration schema of this variant.
    pub fn to_application_command(self) -> (r: CommandSchema)
        ensures
            r@ == self.schema_spec(),
    {
        match self {
            GuildCommands::User => user::GuildUserCmd::to_application_command(),
            GuildCommands::Stock => stock::StockCmd::to_application_command(),
            GuildCommands::ML => ml::MLCmd::to_application_command(),
            GuildCommands::Server => server::GuildServerCmd::to_application_command(),
        }
    }

    /// The whole catalog's schemas, in the catalog's stable order. This
    /// order shapes the payload sent to the platform; dispatch is
    /// independent of it.
    pub fn application_commands() -> (r: Vec<CommandSchema>)
        ensures
            r@.map_values(|c: CommandSchema| c@) == seq![
                GuildCommands::Server.schema_spec(),
                GuildCommands::Stock.schema_spec(),
                GuildCommands::ML.schema_spec(),
                GuildCommands::User.schema_spec(),
            ],
    {
        let mut r: Vec<CommandSchema> = Vec::new();
        r.push(GuildCommands::Server.to_application_command());
        r.push(GuildCommands::Stock.to_application_command());
        r.push(GuildCommands::ML.to_application_command());
        r.push(GuildCommands::User.to_application_command());
        proof {
            assert(r@.map_values(|c: CommandSchema| c@) =~= seq![
                GuildCommands::Server.schema_spec(),
                GuildCommands::Stock.schema_spec(),
                GuildCommands::ML.schema_spec(),
                GuildCommands::User.schema_spec(),
            ]);
        }
        r
    }
}

/// A name that matches no variant of the guild-scope catalog.
#[derive(Debug, Clone)]
pub struct InvalidGuildCommand(pub String);

/// The variant whose name is the given string, if any: the static reverse
/// mapping from declared names back to the closed catalog.
pub open spec fn variant_of_name(s: Seq<char>) -> Option<GuildCommands> {
    if s == "server"@ {
        Some(GuildCommands::Server)
    } else if s == "fear"@ {
        Some(GuildCommands::Stock)
    } else if s == "ml"@ {
        Some(GuildCommands::ML)
    } else if s == "user"@ {
        Some(GuildCommands::User)
    } else {
        None
    }
}

impl GuildCommands {
    /// Resolves a raw external name to a catalog variant. Failing to resolve
    /// is a recoverable, expected condition.
    pub fn from_name(s: &str) -> (r: Result<GuildCommands, InvalidGuildCommand>)
        ensures
            match variant_of_name(s@) {
                Some(v) => r == Ok::<GuildCommands, InvalidGuildCommand>(v),
                None => r matches Err(e) && e.0@ == s@,
            },
    {
        if GuildCommands::Server.name().any_eq(s) {
            Ok(GuildCommands::Server)
        } else if GuildCommands::Stock.name().any_eq(s) {
            Ok(GuildCommands::Stock)
        } else if GuildCommands::ML.name().any_eq(s) {
            Ok(GuildCommands::ML)
        } else if GuildCommands::User.name().any_eq(s) {
            Ok(GuildCommands::User)
        } else {
            Err(InvalidGuildCommand(String::from_str(s)))
        }
    }
}

impl core::str::FromStr for GuildCommands {
    type Err = InvalidGuildCommand;

    fn from_str(s: &str) -> Result<GuildCommands, InvalidGuildCommand> {
        GuildCommands::from_name(s)
    }
}

/// Every variant's name resolves back to that variant: registration's
/// string round trip loses nothing.
pub proof fn lemma_name_round_trip(v: GuildCommands)
    ensures
        variant_of_name(v.name_spec()) == Some(v),
{
    reveal_strlit("server");
    reveal_strlit("fear");
    reveal_strlit("ml");
    reveal_strlit("user");
    assert("fear"@.len() == 4 && "server"@.len() == 6 && "ml"@.len() == 2 && "user"@.len() == 4);
    assert("fear"@ != "server"@) by {
        assert("fear"@.len() != "server"@.len());
    }
    assert("ml"@ != "server"@) by {
        assert("ml"@.len() != "server"@.len());
    }
    assert("ml"@ != "fear"@) by {
        assert("ml"@.len() != "fear"@.len());
    }
    assert("user"@ != "server"@) by {
        assert("user"@.len() != "server"@.len());
    }
    assert("user"@ != "fear"@) by {
        assert("user"@[0] == 'u' && "fear"@[0] == 'f');
    }
    assert("user"@ != "ml"@) by {
        assert("user"@.len() != "ml"@.len());
    }
}

} // verus!
