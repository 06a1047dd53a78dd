use vstd::prelude::*;

use crate::catalog::{guild_entries, spec_random_pick, Catalog};
use crate::engine::{EngineAction, EngineActionView};
use crate::errors::SessionError;
use crate::track::{QueueEntry, QueueEntryView, Track, TrackView};

verus! {

/// The play state of a session, as the engine reports it.
#[derive(Clone, Copy, Debug, PartialEq, Eq, Structural)]
pub enum PlayState {
    /// Connected but nothing is playing.
    Idle,
    /// A current track is streaming.
    Playing,
    /// The current track is paused.
    Paused,
}

/// Ghost mirror of a [`Session`].
#[verifier::ext_equal]
pub struct SessionView {
    pub guild_id: u64,
    pub queue: Seq<TrackView>,
    pub current: Option<TrackView>,
    pub volume: u16,
    pub state: PlayState,
    pub last_activity: u64,
}

impl SessionView {
    /// The session invariant: the volume stays in range, the session is
    /// idle exactly when no current track exists, and tracks queue up
    /// only behind a current track.
    pub open spec fn wf(self) -> bool {
        &&& self.volume <= 200
        &&& (self.current is None <==> self.state is Idle)
        &&& (self.current is None ==> self.queue.len() == 0)
    }

    /// How many tracks the session holds, the current one included.
    pub open spec fn track_count(self) -> nat {
        self.queue.len() + if self.current is Some {
            1nat
        } else {
            0nat
        }
    }
}

/// The state a fresh session starts in: idle, empty, at the default volume.
pub open spec fn spec_new_session(guild_id: u64, now: u64) -> SessionView {
    SessionView {
        guild_id,
        queue: Seq::empty(),
        current: None,
        volume: 100,
        state: PlayState::Idle,
        last_activity: now,
    }
}

/// What enqueuing one track does: an idle session promotes it to the
/// current track and starts the engine; otherwise it joins the back of
/// the queue and no engine call is made.
pub open spec fn spec_enqueue(s: SessionView, t: TrackView) -> (SessionView, Seq<
    EngineActionView,
>) {
    if s.current is None {
        (
            SessionView { current: Some(t), state: PlayState::Playing, ..s },
            seq![EngineActionView::PlaySource { source_ref: t.source_ref }],
        )
    } else {
        (SessionView { queue: s.queue.push(t), ..s }, Seq::empty())
    }
}

/// What a track-end event does: the head of the queue, if any, becomes
/// the current track and starts streaming; an empty queue leaves the
/// session idle.
pub open spec fn spec_track_end(s: SessionView) -> (SessionView, Seq<EngineActionView>) {
    if s.queue.len() > 0 {
        (
            SessionView {
                current: Some(s.queue[0]),
                queue: s.queue.drop_first(),
                state: PlayState::Playing,
                ..s
            },
            seq![EngineActionView::PlaySource { source_ref: s.queue[0].source_ref }],
        )
    } else {
        (SessionView { current: None, state: PlayState::Idle, ..s }, Seq::empty())
    }
}

/// Where a relative seek lands: the delta is added to the engine-reported
/// position and the result is clamped to the representable range, never
/// below zero.
pub open spec fn spec_seek_target(position_secs: u64, delta_secs: i64) -> u64 {
    if position_secs + delta_secs < 0 {
        0u64
    } else if position_secs + delta_secs > u64::MAX {
        u64::MAX
    } else {
        (position_secs + delta_secs) as u64
    }
}

/// The queue display: the current track first, then the queued tracks in
/// order.
pub open spec fn spec_snapshot(s: SessionView) -> Seq<QueueEntryView> {
    (match s.current {
        Some(t) => seq![QueueEntryView { title: t.title, artist: t.artist }],
        None => Seq::empty(),
    }) + s.queue.map_values(|t: TrackView| QueueEntryView { title: t.title, artist: t.artist })
}

/// The guild-scoped playback state: the queue, the current track, the
/// stored volume and the play state machine.  All mutating operations go
/// through `&mut self`, which is the serialization boundary the
/// surrounding code wraps in the per-guild lock.
#[derive(Debug)]
pub struct Session {
    guild_id: u64,
    queue: Vec<Track>,
    current: Option<Track>,
    volume: u16,
    state: PlayState,
    last_activity: u64,
}

impl View for Session {
    type V = SessionView;

    closed spec fn view(&self) -> SessionView {
        SessionView {
            guild_id: self.guild_id,
            queue: self.queue.deep_view(),
            current: self.current.deep_view(),
            volume: self.volume,
            state: self.state,
            last_activity: self.last_activity,
        }
    }
}

impl DeepView for Session {
    type V = SessionView;

    open spec fn deep_view(&self) -> SessionView {
        self.view()
    }
}

impl Session {
    /// A session is created only as a side effect of a successful join;
    /// it starts idle, with the default volume.
    pub fn new(guild_id: u64, now: u64) -> (r: Session)
        ensures
            r@ == spec_new_session(guild_id, now),
            r@.wf(),
    {
        Session {
            guild_id,
            queue: Vec::new(),
            current: None,
            volume: 100,
            state: PlayState::Idle,
            last_activity: now,
        }
    }

    pub fn guild_id(&self) -> (r: u64)
        ensures
            r == self@.guild_id,
    {
        self.guild_id
    }

    pub fn get_volume(&self) -> (r: u16)
        ensures
            r == self@.volume,
    {
        self.volume
    }

    pub fn play_state(&self) -> (r: PlayState)
        ensures
            r == self@.state,
    {
        self.state
    }

    /// How many tracks the session holds, the current one included.
    pub fn track_count(&self) -> (r: usize)
        requires
            self@.track_count() <= usize::MAX,
        ensures
            r == self@.track_count(),
    {
        if self.current.is_some() {
            self.queue.len() + 1
        } else {
            self.queue.len()
        }
    }

    /// Record when the session was last used.
    pub fn note_activity(&mut self, now: u64)
        ensures
            final(self)@ == (SessionView { last_activity: now, ..old(self)@ }),
    {
        self.last_activity = now;
    }

    /// Append a track; an idle session promotes it to the current track
    /// and asks the engine to start it.  Returns the updated number of
    /// held tracks and the engine calls to perform.
    pub fn enqueue(&mut self, track: Track) -> (r: (usize, Vec<EngineAction>))
        requires
            old(self)@.wf(),
            old(self)@.track_count() < usize::MAX,
        ensures
            final(self)@.wf(),
            final(self)@ == spec_enqueue(old(self)@, track@).0,
            r.1.deep_view() == spec_enqueue(old(self)@, track@).1,
            r.0 == final(self)@.track_count(),
    {
        let mut acts: Vec<EngineAction> = Vec::new();
        if self.current.is_none() {
            acts.push(EngineAction::PlaySource { source_ref: track.source_ref.clone() });
            self.current = Some(track);
            self.state = PlayState::Playing;
            proof {
                assert(acts.deep_view() =~= spec_enqueue(old(self)@, track@).1);
            }
            (1, acts)
        } else {
            self.queue.push(track);
            proof {
                assert(self@ =~= spec_enqueue(old(self)@, track@).0);
                assert(acts.deep_view() =~= Seq::<EngineActionView>::empty());
            }
            (self.queue.len() + 1, acts)
        }
    }

    /// Ask the engine to stop the current track.  The queue itself does
    /// not advance here: the engine answers with a track-end event, and
    /// [`Session::handle_track_end`] moves the next track up.
    pub fn skip(&mut self) -> (r: Result<Vec<EngineAction>, SessionError>)
        ensures
            *final(self) == *old(self),
            r is Ok <==> old(self)@.current is Some,
            r matches Ok(acts) ==> acts.deep_view() == seq![EngineActionView::StopCurrent],
            r matches Err(e) ==> e == SessionError::EmptyQueue,
    {
        if self.current.is_some() {
            let mut acts: Vec<EngineAction> = Vec::new();
            acts.push(EngineAction::StopCurrent);
            proof {
                assert(acts.deep_view() =~= seq![EngineActionView::StopCurrent]);
            }
            Ok(acts)
        } else {
            Err(SessionError::EmptyQueue)
        }
    }

    /// Process the engine's track-end event: advance the queue, or go
    /// idle when nothing is left.
    pub fn handle_track_end(&mut self) -> (r: Vec<EngineAction>)
        requires
            old(self)@.wf(),
        ensures
            final(self)@.wf(),
            final(self)@ == spec_track_end(old(self)@).0,
            r.deep_view() == spec_track_end(old(self)@).1,
    {
        let mut acts: Vec<EngineAction> = Vec::new();
        if self.queue.len() > 0 {
            let next = self.queue.remove(0);
            acts.push(EngineAction::PlaySource { source_ref: next.source_ref.clone() });
            self.current = Some(next);
            self.state = PlayState::Playing;
            proof {
                assert(old(self)@.queue.remove(0) =~= old(self)@.queue.drop_first());
                assert(self@ =~= spec_track_end(old(self)@).0);
                assert(acts.deep_view() =~= spec_track_end(old(self)@).1);
            }
        } else {
            self.current = None;
            self.state = PlayState::Idle;
            proof {
                assert(self@ =~= spec_track_end(old(self)@).0);
                assert(acts.deep_view() =~= spec_track_end(old(self)@).1);
            }
        }
        acts
    }

    /// Pause the current track.  Valid only while playing; pausing an
    /// idle or already-paused session is a soft error.
    pub fn pause(&mut self) -> (r: Result<Vec<EngineAction>, SessionError>)
        requires
            old(self)@.wf(),
        ensures
            final(self)@.wf(),
            old(self)@.state is Playing ==> final(self)@ == (SessionView {
                state: PlayState::Paused,
                ..old(self)@
            }),
            old(self)@.state is Playing ==> (r matches Ok(acts) && acts.deep_view() == seq![
                EngineActionView::Pause,
            ]),
            !(old(self)@.state is Playing) ==> r == Err::<
                Vec<EngineAction>,
                SessionError,
            >(SessionError::InvalidStateTransition) && *final(self) == *old(self),
    {
        match self.state {
            PlayState::Playing => {
                self.state = PlayState::Paused;
                let mut acts: Vec<EngineAction> = Vec::new();
                acts.push(EngineAction::Pause);
                proof {
                    assert(acts.deep_view() =~= seq![EngineActionView::Pause]);
                }
                Ok(acts)
            },
            _ => Err(SessionError::InvalidStateTransition),
        }
    }

    /// Resume the paused track.  Valid only while paused; resuming an
    /// idle or already-playing session is a soft error.
    pub fn resume(&mut self) -> (r: Result<Vec<EngineAction>, SessionError>)
        requires
            old(self)@.wf(),
        ensures
            final(self)@.wf(),
            old(self)@.state is Paused ==> final(self)@ == (SessionView {
                state: PlayState::Playing,
                ..old(self)@
            }),
            old(self)@.state is Paused ==> (r matches Ok(acts) && acts.deep_view() == seq![
                EngineActionView::Resume,
            ]),
            !(old(self)@.state is Paused) ==> r == Err::<
                Vec<EngineAction>,
                SessionError,
            >(SessionError::InvalidStateTransition) && *final(self) == *old(self),
    {
        match self.state {
            PlayState::Paused => {
                self.state = PlayState::Playing;
                let mut acts: Vec<EngineAction> = Vec::new();
                acts.push(EngineAction::Resume);
                proof {
                    assert(acts.deep_view() =~= seq![EngineActionView::Resume]);
                }
                Ok(acts)
            },
            _ => Err(SessionError::InvalidStateTransition),
        }
    }

    /// The play/pause button: pause while playing, resume while paused.
    /// Returns the state the session moved to.
    pub fn toggle_play_pause(&mut self) -> (r: Result<
        (PlayState, Vec<EngineAction>),
        SessionError,
    >)
        requires
            old(self)@.wf(),
        ensures
            final(self)@.wf(),
            old(self)@.state is Playing ==> (r matches Ok(p) && p.0 == PlayState::Paused
                && p.1.deep_view() == seq![EngineActionView::Pause] && final(self)@ == (SessionView {
                state: PlayState::Paused,
                ..old(self)@
            })),
            old(self)@.state is Paused ==> (r matches Ok(p) && p.0 == PlayState::Playing
                && p.1.deep_view() == seq![EngineActionView::Resume] && final(self)@
                == (SessionView { state: PlayState::Playing, ..old(self)@ })),
            old(self)@.state is Idle ==> r == Err::<
                (PlayState, Vec<EngineAction>),
                SessionError,
            >(SessionError::InvalidStateTransition) && *final(self) == *old(self),
    {
        match self.state {
            PlayState::Playing => {
                let acts = self.pause()?;
                Ok((PlayState::Paused, acts))
            },
            PlayState::Paused => {
                let acts = self.resume()?;
                Ok((PlayState::Playing, acts))
            },
            PlayState::Idle => Err(SessionError::InvalidStateTransition),
        }
    }

    /// Clear the queue and the current track and stop the engine.  The
    /// voice connection itself stays up: the session merely goes idle.
    pub fn stop(&mut self) -> (r: Vec<EngineAction>)
        requires
            old(self)@.wf(),
        ensures
            final(self)@.wf(),
            final(self)@ == (SessionView {
                queue: Seq::empty(),
                current: None,
                state: PlayState::Idle,
                ..old(self)@
            }),
            r.deep_view() == seq![EngineActionView::StopAll],
    {
        self.queue.clear();
        self.current = None;
        self.state = PlayState::Idle;
        let mut acts: Vec<EngineAction> = Vec::new();
        acts.push(EngineAction::StopAll);
        proof {
            assert(acts.deep_view() =~= seq![EngineActionView::StopAll]);
        }
        acts
    }

    /// Set the live volume and the stored default, so that future tracks
    /// inherit it.  A percentage outside 0 to 200 inclusive is rejected.
    pub fn set_volume(&mut self, percent: i64) -> (r: Result<Vec<EngineAction>, SessionError>)
        requires
            old(self)@.wf(),
        ensures
            final(self)@.wf(),
            0 <= percent <= 200 ==> (r matches Ok(acts) && acts.deep_view() == seq![
                EngineActionView::SetVolume { percent: percent as u16 },
            ] && final(self)@ == (SessionView { volume: percent as u16, ..old(self)@ })),
            !(0 <= percent <= 200) ==> r == Err::<
                Vec<EngineAction>,
                SessionError,
            >(SessionError::OutOfRange) && *final(self) == *old(self),
    {
        if 0 <= percent && percent <= 200 {
            self.volume = percent as u16;
            let mut acts: Vec<EngineAction> = Vec::new();
            acts.push(EngineAction::SetVolume { percent: self.volume });
            proof {
                assert(acts.deep_view() =~= seq![
                    EngineActionView::SetVolume { percent: percent as u16 },
                ]);
            }
            Ok(acts)
        } else {
            Err(SessionError::OutOfRange)
        }
    }

    /// Move within the current track by a relative number of seconds.
    /// The engine-reported position is taken as an argument so the
    /// session lock is never held across the engine read.  The target is
    /// clamped at zero; seeking past the end is the engine's own
    /// boundary handling and is not rejected here.
    pub fn seek_relative(&mut self, position_secs: u64, delta_secs: i64) -> (r: Result<
        (u64, Vec<EngineAction>),
        SessionError,
    >)
        ensures
            *final(self) == *old(self),
            old(self)@.current is Some ==> (r matches Ok(p) && p.0 == spec_seek_target(
                position_secs,
                delta_secs,
            ) && p.1.deep_view() == seq![EngineActionView::SeekTo { position_secs: p.0 }]),
            old(self)@.current is None ==> r == Err::<
                (u64, Vec<EngineAction>),
                SessionError,
            >(SessionError::EmptyQueue),
    {
        if self.current.is_none() {
            return Err(SessionError::EmptyQueue);
        }
        let target: u64 = match position_secs.checked_add_signed(delta_secs) {
            Some(p) => p,
            None => {
                if delta_secs < 0 {
                    0
                } else {
                    u64::MAX
                }
            },
        };
        let mut acts: Vec<EngineAction> = Vec::new();
        acts.push(EngineAction::SeekTo { position_secs: target });
        proof {
            assert(acts.deep_view() =~= seq![EngineActionView::SeekTo { position_secs: target }]);
        }
        Ok((target, acts))
    }

    /// The ordered queue display: the current track first, then the
    /// queued tracks.  Read-only.
    #[verifier::loop_isolation(false)]
    pub fn queue_snapshot(&self) -> (r: Vec<QueueEntry>)
        ensures
            r.deep_view() == spec_snapshot(self@),
    {
        let mut out: Vec<QueueEntry> = Vec::new();
        match &self.current {
            Some(t) => {
                out.push(
                    QueueEntry {
                        title: t.title.clone(),
                        artist: match &t.artist {
                            Some(a) => Some(a.clone()),
                            None => None,
                        },
                    },
                );
            },
            None => {},
        }
        let ghost head = out.deep_view();
        proof {
            assert(head =~= spec_snapshot(self@).take(head.len() as int));
        }
        let n = self.queue.len();
        let mut i: usize = 0;
        while i < n
            invariant
                n == self@.queue.len(),
                i <= n,
                out.deep_view() =~= head + self@.queue.take(i as int).map_values(
                    |t: TrackView| QueueEntryView { title: t.title, artist: t.artist },
                ),
            decreases n - i,
        {
            let t = &self.queue[i];
            let entry = QueueEntry {
                title: t.title.clone(),
                artist: match &t.artist {
                    Some(a) => Some(a.clone()),
                    None => None,
                },
            };
            let ghost ev = entry@;
            let ghost prev = out.deep_view();
            proof {
                assert(ev == (QueueEntryView {
                    title: self@.queue[i as int].title,
                    artist: self@.queue[i as int].artist,
                }));
            }
            out.push(entry);
            proof {
                assert(out.deep_view() =~= prev.push(ev));
                assert(self@.queue.take(i + 1) =~= self@.queue.take(i as int).push(
                    self@.queue[i as int],
                ));
                assert(out.deep_view() =~~= head + self@.queue.take(i + 1).map_values(
                    |t: TrackView| QueueEntryView { title: t.title, artist: t.artist },
                ));
            }
            i += 1;
        }
        proof {
            assert(self@.queue.take(n as int) =~= self@.queue);
            assert(out.deep_view() =~~= spec_snapshot(self@));
        }
        out
    }

    /// The track a catalog entry resolves to: titled after its audio
    /// name, streamed from the stored file, and tagged as coming from
    /// the catalog.
    pub open spec fn spec_jam_track(e: crate::catalog::CatalogEntryView) -> TrackView {
        TrackView {
            title: e.audio_name,
            artist: None,
            source_ref: e.audio_name + "."@ + e.ext,
            duration_secs: None,
            from_catalog: true,
        }
    }

    /// Draw one catalog entry for this guild with the given roll and
    /// enqueue it exactly as `enqueue` would, tagged for a later
    /// delete-and-skip.  An empty catalog is rejected before any engine
    /// call is issued.
    pub fn jam(&mut self, catalog: &Catalog, roll: u64) -> (r: Result<
        (usize, Vec<EngineAction>),
        SessionError,
    >)
        requires
            old(self)@.wf(),
            old(self)@.track_count() < usize::MAX,
        ensures
            final(self)@.wf(),
            guild_entries(catalog@, old(self)@.guild_id).len() == 0 ==> r == Err::<
                (usize, Vec<EngineAction>),
                SessionError,
            >(SessionError::CatalogEmpty) && *final(self) == *old(self),
            guild_entries(catalog@, old(self)@.guild_id).len() > 0 ==> (r matches Ok(p) && {
                let picked = spec_random_pick(catalog@, old(self)@.guild_id, roll)->Some_0;
                &&& final(self)@ == spec_enqueue(old(self)@, Self::spec_jam_track(picked)).0
                &&& p.1.deep_view() == spec_enqueue(old(self)@, Self::spec_jam_track(picked)).1
                &&& p.0 == final(self)@.track_count()
            }),
    {
        let picked = match catalog.random_pick(self.guild_id, roll) {
            Some(e) => e,
            None => {
                return Err(SessionError::CatalogEmpty);
            },
        };
        let mut source_ref = picked.audio_name.clone();
        source_ref.append(".");
        source_ref.append(picked.ext.as_str());
        let track = Track {
            title: picked.audio_name,
            artist: None,
            source_ref,
            duration_secs: None,
            from_catalog: true,
        };
        proof {
            assert(track@ == Self::spec_jam_track(
                spec_random_pick(catalog@, self@.guild_id, roll)->Some_0,
            ));
        }
        let (count, acts) = self.enqueue(track);
        Ok((count, acts))
    }

    /// Remove the catalog entries matching the currently playing track's
    /// title for this guild, then perform an ordinary skip.  Entries of
    /// other guilds are untouched; without a current track nothing is
    /// deleted and no engine call is issued.
    pub fn delete_and_skip(&mut self, catalog: &mut Catalog) -> (r: Result<
        Vec<EngineAction>,
        SessionError,
    >)
        requires
            old(catalog).wf(),
        ensures
            *final(self) == *old(self),
            final(catalog).wf(),
            old(self)@.current is None ==> r == Err::<
                Vec<EngineAction>,
                SessionError,
            >(SessionError::EmptyQueue) && *final(catalog) == *old(catalog),
            old(self)@.current matches Some(t) ==> (r matches Ok(acts) && acts.deep_view() == seq![
                EngineActionView::StopCurrent,
            ] && final(catalog)@ == crate::catalog::spec_delete(
                old(catalog)@,
                old(self)@.guild_id,
                t.title,
            )),
    {
        let title: String = match &self.current {
            Some(t) => t.title.clone(),
            None => {
                return Err(SessionError::EmptyQueue);
            },
        };
        catalog.delete(self.guild_id, title.as_str());
        self.skip()
    }

    /// Process the engine's track-start event: the freshly started track
    /// inherits the session's stored volume.
    pub fn handle_track_start(&self) -> (r: Vec<EngineAction>)
        ensures
            self@.current is Some ==> r.deep_view() == seq![
                EngineActionView::SetVolume { percent: self@.volume },
            ],
            self@.current is None ==> r@.len() == 0,
    {
        let mut acts: Vec<EngineAction> = Vec::new();
        if self.current.is_some() {
            acts.push(EngineAction::SetVolume { percent: self.volume });
            proof {
                assert(acts.deep_view() =~= seq![
                    EngineActionView::SetVolume { percent: self@.volume },
                ]);
            }
        }
        acts
    }
}

/// Enqueue preserves arrival order: from an idle session, enqueuing
/// three tracks makes the first current and leaves the second and third
/// queued behind it, in that order.
pub proof fn lemma_enqueue_fifo(s: SessionView, a: TrackView, b: TrackView, c: TrackView)
    requires
        s.wf(),
        s.current is None,
    ensures
        ({
            let s1 = spec_enqueue(s, a).0;
            let s2 = spec_enqueue(s1, b).0;
            let s3 = spec_enqueue(s2, c).0;
            &&& s3.current == Some(a)
            &&& s3.queue =~= seq![b, c]
        }),
{
}

/// A skip on a session whose queue is empty drains it: the skip itself
/// leaves the state untouched, and processing the track-end event the
/// engine answers with leaves the session idle, with no further engine
/// call.
pub proof fn lemma_skip_drains_to_idle(s: SessionView)
    requires
        s.wf(),
        s.current is Some,
        s.queue.len() == 0,
    ensures
        ({
            let (after, acts) = spec_track_end(s);
            &&& after.current is None
            &&& after.state is Idle
            &&& acts.len() == 0
        }),
{
}

/// A track-end event on a loaded queue promotes exactly the head: the
/// rest of the queue keeps its order.
pub proof fn lemma_track_end_keeps_order(s: SessionView)
    requires
        s.wf(),
        s.queue.len() > 0,
    ensures
        ({
            let (after, acts) = spec_track_end(s);
            &&& after.current == Some(s.queue[0])
            &&& after.queue =~= s.queue.drop_first()
            &&& after.state is Playing
        }),
{
}

} // verus!
