use vstd::prelude::*;

verus! {

/// Ghost mirror of a [`Track`].
#[verifier::ext_equal]
pub struct TrackView {
    pub title: Seq<char>,
    pub artist: Option<Seq<char>>,
    pub source_ref: Seq<char>,
    pub duration_secs: Option<u64>,
    pub from_catalog: bool,
}

/// A resolved, playable track.
///
/// `source_ref` is the opaque reference the playback engine needs to
/// start streaming.  A track picked from the catalog is tagged with
/// `from_catalog`, so a later delete-and-skip can identify the catalog
/// entry it came from.  Tracks are immutable once enqueued: the session
/// never hands out a mutable reference to one.
#[derive(Debug)]
pub struct Track {
    pub title: String,
    pub artist: Option<String>,
    pub source_ref: String,
    pub duration_secs: Option<u64>,
    pub from_catalog: bool,
}

impl View for Track {
    type V = TrackView;

    open spec fn view(&self) -> TrackView {
        TrackView {
            title: self.title@,
            artist: self.artist.deep_view(),
            source_ref: self.source_ref@,
            duration_secs: self.duration_secs,
            from_catalog: self.from_catalog,
        }
    }
}

impl DeepView for Track {
    type V = TrackView;

    open spec fn deep_view(&self) -> TrackView {
        self.view()
    }
}

/// Ghost mirror of a [`QueueEntry`].
#[verifier::ext_equal]
pub struct QueueEntryView {
    pub title: Seq<char>,
    pub artist: Option<Seq<char>>,
}

/// One line of the queue display: what is shown to the user for a track.
#[derive(Debug)]
pub struct QueueEntry {
    pub title: String,
    pub artist: Option<String>,
}

impl View for QueueEntry {
    type V = QueueEntryView;

    open spec fn view(&self) -> QueueEntryView {
        QueueEntryView { title: self.title@, artist: self.artist.deep_view() }
    }
}

impl DeepView for QueueEntry {
    type V = QueueEntryView;

    open spec fn deep_view(&self) -> QueueEntryView {
        self.view()
    }
}

} // verus!
