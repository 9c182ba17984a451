use discord_bot::handler::HandlerError;

#[test]
fn every_error_has_its_message() {
    assert_eq!(
        HandlerError::UnrecognizedCommand(String::from("dance")).message(),
        "Unrecognized command (dance)"
    );
    assert_eq!(HandlerError::EmptyCommand.message(), "Command was empty");
    assert_eq!(
        HandlerError::Send(String::from("socket closed")).message(),
        "Failed to send message"
    );
    assert_eq!(HandlerError::NotGuild.message(), "Command can only be used in a server");
    assert_eq!(HandlerError::TimeoutOrOverLimit.message(), "Timed out or had too many inputs");
    assert_eq!(HandlerError::UserNotFound.message(), "Couldn't find user");
    assert_eq!(HandlerError::UnexpectedData.message(), "Unexpected data received from server");
    assert_eq!(
        HandlerError::ApplicationCommandCap.message(),
        "Maximum number of commands reached"
    );
    assert_eq!(
        HandlerError::CommandRegisterUnknown.message(),
        "Received command info for unknown command"
    );
    assert_eq!(
        HandlerError::TypeMapNotFound.message(),
        "Internal error, could not build response"
    );
    assert_eq!(HandlerError::CommandSetup.message(), "Could not set up application commands");
}

#[test]
fn only_the_defensive_limit_skips_the_followup() {
    assert!(!HandlerError::TimeoutOrOverLimit.should_followup());
    assert!(HandlerError::UnrecognizedCommand(String::from("x")).should_followup());
    assert!(HandlerError::EmptyCommand.should_followup());
    assert!(HandlerError::TargetNone.should_followup());
    assert!(HandlerError::Send(String::from("x")).should_followup());
    assert!(HandlerError::NotGuild.should_followup());
    assert!(HandlerError::UserNotFound.should_followup());
    assert!(HandlerError::UnexpectedData.should_followup());
    assert!(HandlerError::ApplicationCommandCap.should_followup());
    assert!(HandlerError::EmoteLogCountNoParams.should_followup());
    assert!(HandlerError::CountNone.should_followup());
    assert!(HandlerError::CommandRegisterUnknown.should_followup());
    assert!(HandlerError::TypeMapNotFound.should_followup());
    assert!(HandlerError::CommandSetup.should_followup());
}

#[test]
fn followup_decision_carries_the_message() {
    assert_eq!(HandlerError::TimeoutOrOverLimit.decide_followup(), None);
    assert_eq!(
        HandlerError::NotGuild.decide_followup(),
        Some(String::from("Command can only be used in a server"))
    );
    assert_eq!(
        HandlerError::UnrecognizedCommand(String::from("dance")).decide_followup(),
        Some(String::from("Unrecognized command (dance)"))
    );
}

#[test]
fn activity_updates_are_throttled() {
    assert!(discord_bot::should_update_activity(None, 0));
    assert!(!discord_bot::should_update_activity(Some(0), 20));
    assert!(discord_bot::should_update_activity(Some(0), 21));
    assert!(!discord_bot::should_update_activity(Some(100), 105));
}
