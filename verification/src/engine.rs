use vstd::prelude::*;

verus! {

/// Ghost mirror of an [`EngineAction`].
#[verifier::ext_equal]
pub enum EngineActionView {
    Connect { channel_id: u64 },
    PlaySource { source_ref: Seq<char> },
    StopCurrent,
    Pause,
    Resume,
    SeekTo { position_secs: u64 },
    SetVolume { percent: u16 },
    StopAll,
}

/// One call the playback engine must perform on behalf of a session.
///
/// Session operations never talk to the engine themselves: they return
/// the actions to perform, and the surrounding code carries them out
/// after the session's lock is released.
#[derive(Debug)]
pub enum EngineAction {
    /// Join the given voice channel.
    Connect { channel_id: u64 },
    /// Start streaming the given source.
    PlaySource { source_ref: String },
    /// Stop the current track; the engine answers with a track-end event.
    StopCurrent,
    /// Pause the current track.
    Pause,
    /// Resume the paused track.
    Resume,
    /// Seek within the current track.
    SeekTo { position_secs: u64 },
    /// Set the live volume.
    SetVolume { percent: u16 },
    /// Stop playback altogether.
    StopAll,
}

impl View for EngineAction {
    type V = EngineActionView;

    open spec fn view(&self) -> EngineActionView {
        match self {
            EngineAction::Connect { channel_id } => (EngineActionView::Connect { channel_id: *channel_id }),
            EngineAction::PlaySource { source_ref } => (EngineActionView::PlaySource { source_ref: source_ref@ }),
            EngineAction::StopCurrent => EngineActionView::StopCurrent,
            EngineAction::Pause => EngineActionView::Pause,
            EngineAction::Resume => EngineActionView::Resume,
            EngineAction::SeekTo { position_secs } => (EngineActionView::SeekTo { position_secs: *position_secs }),
            EngineAction::SetVolume { percent } => (EngineActionView::SetVolume { percent: *percent }),
            EngineAction::StopAll => EngineActionView::StopAll,
        }
    }
}

impl DeepView for EngineAction {
    type V = EngineActionView;

    open spec fn deep_view(&self) -> EngineActionView {
        self.view()
    }
}

} // verus!
