use jam_session::catalog::Catalog;
use jam_session::engine::EngineAction;
use jam_session::errors::SessionError;
use jam_session::session::{PlayState, Session};
use jam_session::track::Track;

fn track(title: &str, source: &str) -> Track {
    Track {
        title: title.to_owned(),
        artist: None,
        source_ref: source.to_owned(),
        duration_secs: None,
        from_catalog: false,
    }
}

#[test]
fn enqueue_preserves_fifo_order() {
    let mut s = Session::new(7, 0);
    let (n1, acts1) = s.enqueue(track("a", "src-a"));
    assert_eq!(n1, 1);
    assert_eq!(acts1.len(), 1);
    assert!(matches!(&acts1[0], EngineAction::PlaySource { source_ref } if source_ref == "src-a"));
    let (n2, acts2) = s.enqueue(track("b", "src-b"));
    assert_eq!(n2, 2);
    assert!(acts2.is_empty());
    let (n3, acts3) = s.enqueue(track("c", "src-c"));
    assert_eq!(n3, 3);
    assert!(acts3.is_empty());
    let snapshot = s.queue_snapshot();
    let titles: Vec<&str> = snapshot.iter().map(|e| e.title.as_str()).collect();
    assert_eq!(titles, vec!["a", "b", "c"]);
    assert_eq!(s.play_state(), PlayState::Playing);
}

#[test]
fn skip_then_track_end_goes_idle() {
    let mut s = Session::new(7, 0);
    let _ = s.enqueue(track("a", "src-a"));
    let acts = s.skip().expect("a current track can be skipped");
    assert_eq!(acts.len(), 1);
    assert!(matches!(acts[0], EngineAction::StopCurrent));
    // the engine answers the stop with a track-end event
    let end_acts = s.handle_track_end();
    assert!(end_acts.is_empty());
    assert_eq!(s.play_state(), PlayState::Idle);
    assert_eq!(s.track_count(), 0);
    assert!(s.queue_snapshot().is_empty());
}

#[test]
fn skip_with_nothing_playing_fails() {
    let mut s = Session::new(7, 0);
    assert_eq!(s.skip().unwrap_err(), SessionError::EmptyQueue);
}

#[test]
fn track_end_promotes_head_of_queue() {
    let mut s = Session::new(7, 0);
    let _ = s.enqueue(track("a", "src-a"));
    let _ = s.enqueue(track("b", "src-b"));
    let _ = s.enqueue(track("c", "src-c"));
    let acts = s.handle_track_end();
    assert!(matches!(&acts[0], EngineAction::PlaySource { source_ref } if source_ref == "src-b"));
    let titles: Vec<String> = s.queue_snapshot().into_iter().map(|e| e.title).collect();
    assert_eq!(titles, vec!["b".to_owned(), "c".to_owned()]);
}

#[test]
fn volume_boundaries_are_inclusive() {
    let mut s = Session::new(7, 0);
    assert_eq!(s.set_volume(250).unwrap_err(), SessionError::OutOfRange);
    assert_eq!(s.set_volume(-1).unwrap_err(), SessionError::OutOfRange);
    assert_eq!(s.get_volume(), 100);

    let acts = s.set_volume(0).expect("0 is in range");
    assert!(matches!(acts[0], EngineAction::SetVolume { percent: 0 }));
    assert_eq!(s.get_volume(), 0);

    let acts = s.set_volume(200).expect("200 is in range");
    assert!(matches!(acts[0], EngineAction::SetVolume { percent: 200 }));
    assert_eq!(s.get_volume(), 200);
}

#[test]
fn new_track_inherits_stored_volume() {
    let mut s = Session::new(7, 0);
    s.set_volume(35).unwrap();
    let _ = s.enqueue(track("a", "src-a"));
    let acts = s.handle_track_start();
    assert_eq!(acts.len(), 1);
    assert!(matches!(acts[0], EngineAction::SetVolume { percent: 35 }));
}

#[test]
fn fast_forward_moves_position() {
    let mut s = Session::new(7, 0);
    let _ = s.enqueue(track("a", "src-a"));
    let (pos, acts) = s.seek_relative(50, 15).expect("something is playing");
    assert_eq!(pos, 65);
    assert!(matches!(acts[0], EngineAction::SeekTo { position_secs: 65 }));
}

#[test]
fn fast_forward_with_nothing_playing_fails() {
    let mut s = Session::new(7, 0);
    assert_eq!(s.seek_relative(50, 15).unwrap_err(), SessionError::EmptyQueue);
}

#[test]
fn rewind_clamps_at_zero() {
    let mut s = Session::new(7, 0);
    let _ = s.enqueue(track("a", "src-a"));
    let (pos, _) = s.seek_relative(10, -50).expect("something is playing");
    assert_eq!(pos, 0);
}

#[test]
fn stop_clears_queue_and_current() {
    let mut s = Session::new(7, 0);
    let _ = s.enqueue(track("a", "src-a"));
    let _ = s.enqueue(track("b", "src-b"));
    let acts = s.stop();
    assert!(matches!(acts[0], EngineAction::StopAll));
    assert_eq!(s.play_state(), PlayState::Idle);
    assert_eq!(s.track_count(), 0);
}

#[test]
fn pause_and_resume_follow_the_state_machine() {
    let mut s = Session::new(7, 0);
    assert_eq!(s.pause().unwrap_err(), SessionError::InvalidStateTransition);
    assert_eq!(s.resume().unwrap_err(), SessionError::InvalidStateTransition);

    let _ = s.enqueue(track("a", "src-a"));
    assert_eq!(s.resume().unwrap_err(), SessionError::InvalidStateTransition);
    let acts = s.pause().expect("playing can pause");
    assert!(matches!(acts[0], EngineAction::Pause));
    assert_eq!(s.play_state(), PlayState::Paused);

    assert_eq!(s.pause().unwrap_err(), SessionError::InvalidStateTransition);
    let acts = s.resume().expect("paused can resume");
    assert!(matches!(acts[0], EngineAction::Resume));
    assert_eq!(s.play_state(), PlayState::Playing);
}

#[test]
fn toggle_flips_between_play_and_pause() {
    let mut s = Session::new(7, 0);
    assert_eq!(
        s.toggle_play_pause().unwrap_err(),
        SessionError::InvalidStateTransition
    );
    let _ = s.enqueue(track("a", "src-a"));
    let (st, _) = s.toggle_play_pause().unwrap();
    assert_eq!(st, PlayState::Paused);
    let (st, _) = s.toggle_play_pause().unwrap();
    assert_eq!(st, PlayState::Playing);
}

#[test]
fn jam_on_empty_catalog_fails_without_engine_calls() {
    let mut s = Session::new(7, 0);
    let catalog = Catalog::new();
    assert_eq!(s.jam(&catalog, 42).unwrap_err(), SessionError::CatalogEmpty);
    assert_eq!(s.play_state(), PlayState::Idle);
    assert_eq!(s.track_count(), 0);
}

#[test]
fn jam_with_one_entry_picks_it_deterministically() {
    let mut catalog = Catalog::new();
    catalog.add(7, "tune", "webm");
    for roll in [0u64, 1, 5, 1000] {
        let mut s = Session::new(7, 0);
        let (n, acts) = s.jam(&catalog, roll).expect("catalog has an entry");
        assert_eq!(n, 1);
        assert!(
            matches!(&acts[0], EngineAction::PlaySource { source_ref } if source_ref == "tune.webm")
        );
        assert_eq!(s.queue_snapshot()[0].title, "tune");
    }
}

#[test]
fn jam_ignores_other_guilds_entries() {
    let mut catalog = Catalog::new();
    catalog.add(8, "other", "webm");
    let mut s = Session::new(7, 0);
    assert_eq!(s.jam(&catalog, 0).unwrap_err(), SessionError::CatalogEmpty);
}

#[test]
fn delete_and_skip_removes_only_this_guilds_entry() {
    let mut catalog = Catalog::new();
    catalog.add(7, "tune", "webm");
    catalog.add(8, "tune", "webm");
    catalog.add(7, "other", "webm");

    let mut s = Session::new(7, 0);
    let _ = s.jam(&catalog, 0);
    let playing = s.queue_snapshot()[0].title.clone();
    assert_eq!(playing, "tune");

    let acts = s.delete_and_skip(&mut catalog).expect("a track is playing");
    assert!(matches!(acts[0], EngineAction::StopCurrent));

    // the other guild's same-title entry and this guild's other entry survive
    assert_eq!(catalog.len(), 2);
    assert!(catalog.random_pick(8, 0).is_some());
    let left = catalog.random_pick(7, 0).expect("one entry left for guild 7");
    assert_eq!(left.audio_name, "other");
}

#[test]
fn delete_and_skip_without_current_track_fails() {
    let mut catalog = Catalog::new();
    catalog.add(7, "tune", "webm");
    let mut s = Session::new(7, 0);
    assert_eq!(
        s.delete_and_skip(&mut catalog).unwrap_err(),
        SessionError::EmptyQueue
    );
    assert_eq!(catalog.len(), 1);
}

#[test]
fn note_activity_updates_timestamp_only() {
    let mut s = Session::new(7, 11);
    let _ = s.enqueue(track("a", "src-a"));
    s.note_activity(99);
    assert_eq!(s.guild_id(), 7);
    assert_eq!(s.track_count(), 1);
}

#[test]
fn snapshot_keeps_artists_with_titles() {
    let mut s = Session::new(7, 0);
    let _ = s.enqueue(Track {
        title: "a".to_owned(),
        artist: Some("someone".to_owned()),
        source_ref: "src-a".to_owned(),
        duration_secs: Some(240),
        from_catalog: false,
    });
    let snapshot = s.queue_snapshot();
    assert_eq!(snapshot.len(), 1);
    assert_eq!(snapshot[0].title, "a");
    assert_eq!(snapshot[0].artist.as_deref(), Some("someone"));
}

#[test]
fn fast_forward_saturates_at_the_top_of_the_range() {
    let mut s = Session::new(7, 0);
    let _ = s.enqueue(track("a", "src-a"));
    let (pos, _) = s.seek_relative(u64::MAX - 5, 15).expect("something is playing");
    assert_eq!(pos, u64::MAX);
}
