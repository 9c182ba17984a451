pub mod command_details;
pub mod commands;

use vstd::prelude::*;

verus! {

/// The event handler at the heart of the bot: it owns no state of its own;
/// the dispatch table is passed to it explicitly.
pub struct Handler;

impl Handler {
    pub fn new() -> (r: Result<Handler, HandlerError>)
        ensures
            r is Ok,
    {
        Ok(Handler)
    }
}

/// Everything that can go wrong while registering commands or while handling
/// one interaction.
#[derive(Debug, PartialEq)]
pub enum HandlerError {
    /// The router found no variant for an invoked identifier or name.
    UnrecognizedCommand(String),
    /// The interaction carried no option to route on.
    EmptyCommand,
    /// A response could not be assembled for want of a target.
    TargetNone,
    /// An outbound reply failed; the platform client's description is kept.
    Send(String),
    /// A command that needs guild context was invoked without one.
    NotGuild,
    /// A handler-level defensive limit was hit; never reported to the user.
    TimeoutOrOverLimit,
    /// A requested user could not be found.
    UserNotFound,
    /// The platform answered with data of an unexpected shape.
    UnexpectedData,
    /// The platform's limit on registered commands was reached.
    ApplicationCommandCap,
    /// A response could not be assembled for want of parameters.
    EmoteLogCountNoParams,
    /// A response could not be assembled for want of a count.
    CountNone,
    /// Registration returned a command name the catalog does not know.
    CommandRegisterUnknown,
    /// A scope was consulted that was never registered; an internal bug.
    TypeMapNotFound,
    /// Registration failed as a whole; fatal to startup.
    CommandSetup,
}

impl HandlerError {
    /// The human-readable description sent back to the invoking user.
    pub open spec fn message_spec(&self) -> Seq<char> {
        match self {
            HandlerError::UnrecognizedCommand(s) => "Unrecognized command ("@ + s@ + ")"@,
            HandlerError::EmptyCommand => "Command was empty"@,
            HandlerError::TargetNone => "Internal error, could not build response"@,
            HandlerError::Send(_) => "Failed to send message"@,
            HandlerError::NotGuild => "Command can only be used in a server"@,
            HandlerError::TimeoutOrOverLimit => "Timed out or had too many inputs"@,
            HandlerError::UserNotFound => "Couldn't find user"@,
            HandlerError::UnexpectedData => "Unexpected data received from server"@,
            HandlerError::ApplicationCommandCap => "Maximum number of commands reached"@,
            HandlerError::EmoteLogCountNoParams => "Internal error, could not build response"@,
            HandlerError::CountNone => "Internal error, could not build response"@,
            HandlerError::CommandRegisterUnknown => "Received command info for unknown command"@,
            HandlerError::TypeMapNotFound => "Internal error, could not build response"@,
            HandlerError::CommandSetup => "Could not set up application commands"@,
        }
    }

    pub fn message(&self) -> (r: String)
        ensures
            r@ == self.message_spec(),
    {
        match self {
            HandlerError::UnrecognizedCommand(s) => String::from_str(
                "Unrecognized command (",
            ).concat(s.as_str()).concat(")"),
            HandlerError::EmptyCommand => String::from_str("Command was empty"),
            HandlerError::TargetNone => String::from_str(
                "Internal error, could not build response",
            ),
            HandlerError::Send(_) => String::from_str("Failed to send message"),
            HandlerError::NotGuild => String::from_str("Command can only be used in a server"),
            HandlerError::TimeoutOrOverLimit => String::from_str(
                "Timed out or had too many inputs",
            ),
            HandlerError::UserNotFound => String::from_str("Couldn't find user"),
            HandlerError::UnexpectedData => String::from_str(
                "Unexpected data received from server",
            ),
            HandlerError::ApplicationCommandCap => String::from_str(
                "Maximum number of commands reached",
            ),
            HandlerError::EmoteLogCountNoParams => String::from_str(
                "Internal error, could not build response",
            ),
            HandlerError::CountNone => String::from_str(
                "Internal error, could not build response",
            ),
            HandlerError::CommandRegisterUnknown => String::from_str(
                "Received command info for unknown command",
            ),
            HandlerError::TypeMapNotFound => String::from_str(
                "Internal error, could not build response",
            ),
            HandlerError::CommandSetup => String::from_str(
                "Could not set up application commands",
            ),
        }
    }

    /// Whether an error of this kind is reported back to the invoking user
    /// with an ephemeral follow-up message. Defensive limits opt out, to
    /// avoid noise on expected rate-limited situations.
    pub fn should_followup(&self) -> (r: bool)
        ensures
            r <==> !(self is TimeoutOrOverLimit),
    {
        !matches!(self, HandlerError::TimeoutOrOverLimit)
    }

    /// The router's follow-up decision: the ephemeral message to send for
    /// this error, or nothing when the kind opts out of reporting.
    pub fn decide_followup(&self) -> (r: Option<String>)
        ensures
            self is TimeoutOrOverLimit <==> r is None,
            r matches Some(m) ==> m@ == self.message_spec(),
    {
        if self.should_followup() {
            Some(self.message())
        } else {
            None
        }
    }
}

} // verus!
