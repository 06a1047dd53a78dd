use vstd::prelude::*;

use crate::errors::SessionError;
use crate::text::str_eq;

verus! {

/// The closed set of slash commands the router accepts.
#[derive(Clone, Copy, Debug, PartialEq, Eq, Structural)]
pub enum CommandKind {
    /// Resolve and enqueue a raw play request.
    PlayRequest,
    /// Show the current queue.
    ShowQueue,
    /// Show the command help.
    Help,
    /// Set or report the volume.
    Volume,
    /// Enqueue a whole playlist.
    Playlist,
    /// Join the caller's voice channel.
    Join,
    /// Fast-forward the current track.
    FastForward,
}

/// The closed set of interaction buttons the router accepts.
#[derive(Clone, Copy, Debug, PartialEq, Eq, Structural)]
pub enum ComponentKind {
    /// The play/pause toggle.
    PlayPause,
    /// Skip to the next track.
    Skip,
    /// Stop and clear the queue.
    Stop,
    /// Fast-forward the current track.
    FastForward,
    /// Jam: play a random catalog track.
    Jam,
    /// Remove the playing track's catalog entry and skip it.
    DeleteAndSkip,
}

/// Which command a name denotes; an unknown name denotes none, a
/// distinct explicit outcome rather than a failure path.
pub open spec fn spec_parse_command(name: Seq<char>) -> Option<CommandKind> {
    if name == "j"@ {
        Some(CommandKind::PlayRequest)
    } else if name == "que"@ {
        Some(CommandKind::ShowQueue)
    } else if name == "help"@ {
        Some(CommandKind::Help)
    } else if name == "vol"@ {
        Some(CommandKind::Volume)
    } else if name == "playlist"@ {
        Some(CommandKind::Playlist)
    } else if name == "join"@ {
        Some(CommandKind::Join)
    } else if name == "ff"@ {
        Some(CommandKind::FastForward)
    } else {
        None
    }
}

/// Which button a custom id denotes; an unknown id denotes none.
pub open spec fn spec_parse_component(custom_id: Seq<char>) -> Option<ComponentKind> {
    if custom_id == "play"@ {
        Some(ComponentKind::PlayPause)
    } else if custom_id == "next"@ {
        Some(ComponentKind::Skip)
    } else if custom_id == "stop"@ {
        Some(ComponentKind::Stop)
    } else if custom_id == "ff"@ {
        Some(ComponentKind::FastForward)
    } else if custom_id == "jam_it"@ {
        Some(ComponentKind::Jam)
    } else if custom_id == "delete_and_skip"@ {
        Some(ComponentKind::DeleteAndSkip)
    } else {
        None
    }
}

/// Validate a slash command's name into the closed command set.
pub fn parse_command(name: &str) -> (r: Option<CommandKind>)
    ensures
        r == spec_parse_command(name@),
{
    if str_eq(name, "j") {
        Some(CommandKind::PlayRequest)
    } else if str_eq(name, "que") {
        Some(CommandKind::ShowQueue)
    } else if str_eq(name, "help") {
        Some(CommandKind::Help)
    } else if str_eq(name, "vol") {
        Some(CommandKind::Volume)
    } else if str_eq(name, "playlist") {
        Some(CommandKind::Playlist)
    } else if str_eq(name, "join") {
        Some(CommandKind::Join)
    } else if str_eq(name, "ff") {
        Some(CommandKind::FastForward)
    } else {
        None
    }
}

/// Validate a button's custom id into the closed component set.
pub fn parse_component(custom_id: &str) -> (r: Option<ComponentKind>)
    ensures
        r == spec_parse_component(custom_id@),
{
    if str_eq(custom_id, "play") {
        Some(ComponentKind::PlayPause)
    } else if str_eq(custom_id, "next") {
        Some(ComponentKind::Skip)
    } else if str_eq(custom_id, "stop") {
        Some(ComponentKind::Stop)
    } else if str_eq(custom_id, "ff") {
        Some(ComponentKind::FastForward)
    } else if str_eq(custom_id, "jam_it") {
        Some(ComponentKind::Jam)
    } else if str_eq(custom_id, "delete_and_skip") {
        Some(ComponentKind::DeleteAndSkip)
    } else {
        None
    }
}

/// A voice-bound command needs the issuing user's voice channel: absent
/// one, the command is rejected before anything else happens.
pub fn require_voice_channel(channel_id: Option<u64>) -> (r: Result<u64, SessionError>)
    ensures
        channel_id matches Some(c) ==> r == Ok::<u64, SessionError>(c),
        channel_id is None ==> r == Err::<u64, SessionError>(SessionError::NotInVoiceChannel),
{
    match channel_id {
        Some(c) => Ok(c),
        None => Err(SessionError::NotInVoiceChannel),
    }
}

/// The fast-forward surface only offers forward motion: a negative
/// number of seconds is rejected at the router boundary.
pub fn validate_fast_forward(seconds: i64) -> (r: Option<i64>)
    ensures
        r == if seconds >= 0 {
            Some(seconds)
        } else {
            None::<i64>
        },
{
    if seconds >= 0 {
        Some(seconds)
    } else {
        None
    }
}

} // verus!
