use jam_session::catalog::Catalog;

#[test]
fn add_is_an_idempotent_upsert() {
    let mut c = Catalog::new();
    c.add(7, "tune", "webm");
    assert_eq!(c.len(), 1);
    c.add(7, "tune", "webm");
    assert_eq!(c.len(), 1);
    c.add(7, "tune", "opus");
    assert_eq!(c.len(), 2);
    c.add(8, "tune", "webm");
    assert_eq!(c.len(), 3);
}

#[test]
fn random_pick_on_empty_catalog_is_none() {
    let c = Catalog::new();
    assert!(c.random_pick(7, 0).is_none());
}

#[test]
fn random_pick_with_one_entry_is_deterministic() {
    let mut c = Catalog::new();
    c.add(7, "tune", "webm");
    for roll in 0..10u64 {
        let e = c.random_pick(7, roll).expect("guild 7 has an entry");
        assert_eq!(e.guild_id, 7);
        assert_eq!(e.audio_name, "tune");
        assert_eq!(e.ext, "webm");
    }
}

#[test]
fn random_pick_cycles_uniformly_over_rolls() {
    let mut c = Catalog::new();
    c.add(7, "a", "webm");
    c.add(7, "b", "webm");
    c.add(7, "c", "webm");
    c.add(8, "elsewhere", "webm");
    let mut counts = [0usize; 3];
    for roll in 0..300u64 {
        let e = c.random_pick(7, roll).expect("guild 7 has entries");
        match e.audio_name.as_str() {
            "a" => counts[0] += 1,
            "b" => counts[1] += 1,
            "c" => counts[2] += 1,
            other => panic!("unexpected pick {other}"),
        }
    }
    // a uniform roll maps to a uniform pick: each entry hit equally often
    assert_eq!(counts, [100, 100, 100]);
}

#[test]
fn delete_removes_exactly_the_matching_title() {
    let mut c = Catalog::new();
    c.add(7, "tune", "webm");
    c.add(7, "tune", "opus");
    c.add(7, "other", "webm");
    c.add(8, "tune", "webm");
    c.delete(7, "tune");
    // both extensions of guild 7's "tune" go; the rest stay
    assert_eq!(c.len(), 2);
    assert_eq!(c.random_pick(7, 0).unwrap().audio_name, "other");
    assert_eq!(c.random_pick(8, 0).unwrap().audio_name, "tune");
}

#[test]
fn delete_of_absent_title_is_a_noop() {
    let mut c = Catalog::new();
    c.add(7, "tune", "webm");
    c.delete(7, "missing");
    c.delete(9, "tune");
    assert_eq!(c.len(), 1);
}
