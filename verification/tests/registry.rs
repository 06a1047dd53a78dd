use jam_session::engine::EngineAction;
use jam_session::records::{Channel, UserBossMusic};
use jam_session::registry::SessionRegistry;

#[test]
fn get_or_create_joins_exactly_once() {
    let mut reg = SessionRegistry::new();
    let (i1, acts1) = reg.get_or_create(7, 555, 0);
    assert_eq!(acts1.len(), 1);
    assert!(matches!(acts1[0], EngineAction::Connect { channel_id: 555 }));

    // the racing loser finds the winner's session: no second join
    let (i2, acts2) = reg.get_or_create(7, 555, 1);
    assert!(acts2.is_empty());
    assert_eq!(i1, i2);
    assert_eq!(reg.len(), 1);
    assert_eq!(reg.session(i2).guild_id(), 7);
}

#[test]
fn guilds_get_independent_sessions() {
    let mut reg = SessionRegistry::new();
    let (i7, _) = reg.get_or_create(7, 555, 0);
    let (i8, _) = reg.get_or_create(8, 556, 0);
    assert_ne!(i7, i8);
    reg.session_mut(i7).set_volume(50).unwrap();
    assert_eq!(reg.session(i7).get_volume(), 50);
    assert_eq!(reg.session(i8).get_volume(), 100);
}

#[test]
fn remove_is_idempotent() {
    let mut reg = SessionRegistry::new();
    let _ = reg.get_or_create(7, 555, 0);
    reg.remove(7);
    assert_eq!(reg.len(), 0);
    assert!(reg.get(7).is_none());
    // removing again, or removing a guild that never joined, is a no-op
    reg.remove(7);
    reg.remove(9);
    assert_eq!(reg.len(), 0);
}

#[test]
fn get_finds_only_existing_sessions() {
    let mut reg = SessionRegistry::new();
    assert!(reg.get(7).is_none());
    let (i, _) = reg.get_or_create(7, 555, 0);
    assert_eq!(reg.get(7), Some(i));
}

#[test]
fn stored_records_round_trip() {
    let m = UserBossMusic::new(Some("entrance.ogg".to_owned()));
    assert_eq!(m.song().as_deref(), Some("entrance.ogg"));
    let none = UserBossMusic::new(None);
    assert!(none.song().is_none());
    let c = Channel { channel_id: -3 };
    assert_eq!(c.channel_id, -3);
}
