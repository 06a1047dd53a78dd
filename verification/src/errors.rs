use vstd::prelude::*;

verus! {

/// The user-facing error taxonomy of the session coordinator.
#[derive(Clone, Copy, Debug, PartialEq, Eq, Structural)]
pub enum SessionError {
    /// The issuing user is not in a voice channel.
    NotInVoiceChannel,
    /// No session exists for the guild.
    NoActiveSession,
    /// Nothing is playing or queued.
    EmptyQueue,
    /// A pause or resume that the current play state does not allow.
    InvalidStateTransition,
    /// A volume outside the accepted range.
    OutOfRange,
    /// The guild has no catalog entries to jam from.
    CatalogEmpty,
    /// A play request could not be resolved to a track.
    ResolutionFailure,
    /// Recording a track into the catalog store failed.
    PersistenceFailure,
    /// The playback engine rejected an operation.
    EngineFailure,
}

impl SessionError {
    /// The short message shown to the user for this error.
    pub fn message(&self) -> (r: &'static str)
        ensures
            *self is NotInVoiceChannel ==> r@ == "Not in a voice channel"@,
            *self is NoActiveSession ==> r@ == "bot is not present in a voice channel"@,
            *self is EmptyQueue ==> r@ == "No audio queued"@,
            *self is InvalidStateTransition ==> r@ == "Nothing to pause or resume"@,
            *self is OutOfRange ==> r@ == "volume must be between 0 and 200"@,
            *self is CatalogEmpty ==> r@ == "No tracks present to jam"@,
            *self is ResolutionFailure ==> r@ == "Search returned no results"@,
            *self is PersistenceFailure ==> r@ == "could not record the track"@,
            *self is EngineFailure ==> r@ == "playback engine failure"@,
    {
        match self {
            SessionError::NotInVoiceChannel => "Not in a voice channel",
            SessionError::NoActiveSession => "bot is not present in a voice channel",
            SessionError::EmptyQueue => "No audio queued",
            SessionError::InvalidStateTransition => "Nothing to pause or resume",
            SessionError::OutOfRange => "volume must be between 0 and 200",
            SessionError::CatalogEmpty => "No tracks present to jam",
            SessionError::ResolutionFailure => "Search returned no results",
            SessionError::PersistenceFailure => "could not record the track",
            SessionError::EngineFailure => "playback engine failure",
        }
    }
}

} // verus!
