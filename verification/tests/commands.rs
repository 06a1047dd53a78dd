use jam_session::commands::{
    parse_command, parse_component, require_voice_channel, validate_fast_forward, CommandKind,
    ComponentKind,
};
use jam_session::errors::SessionError;

#[test]
fn every_known_command_name_parses() {
    assert_eq!(parse_command("j"), Some(CommandKind::PlayRequest));
    assert_eq!(parse_command("que"), Some(CommandKind::ShowQueue));
    assert_eq!(parse_command("help"), Some(CommandKind::Help));
    assert_eq!(parse_command("vol"), Some(CommandKind::Volume));
    assert_eq!(parse_command("playlist"), Some(CommandKind::Playlist));
    assert_eq!(parse_command("join"), Some(CommandKind::Join));
    assert_eq!(parse_command("ff"), Some(CommandKind::FastForward));
}

#[test]
fn unknown_command_names_are_rejected_explicitly() {
    assert_eq!(parse_command("jj"), None);
    assert_eq!(parse_command(""), None);
    assert_eq!(parse_command("J"), None);
    assert_eq!(parse_command("queue"), None);
}

#[test]
fn every_known_button_id_parses() {
    assert_eq!(parse_component("play"), Some(ComponentKind::PlayPause));
    assert_eq!(parse_component("next"), Some(ComponentKind::Skip));
    assert_eq!(parse_component("stop"), Some(ComponentKind::Stop));
    assert_eq!(parse_component("ff"), Some(ComponentKind::FastForward));
    assert_eq!(parse_component("jam_it"), Some(ComponentKind::Jam));
    assert_eq!(
        parse_component("delete_and_skip"),
        Some(ComponentKind::DeleteAndSkip)
    );
}

#[test]
fn unknown_button_ids_are_rejected_explicitly() {
    assert_eq!(parse_component("foo"), None);
    assert_eq!(parse_component(""), None);
}

#[test]
fn voice_channel_is_required() {
    assert_eq!(require_voice_channel(Some(42)), Ok(42));
    assert_eq!(
        require_voice_channel(None),
        Err(SessionError::NotInVoiceChannel)
    );
}

#[test]
fn fast_forward_rejects_negative_seconds() {
    assert_eq!(validate_fast_forward(15), Some(15));
    assert_eq!(validate_fast_forward(0), Some(0));
    assert_eq!(validate_fast_forward(-1), None);
}
