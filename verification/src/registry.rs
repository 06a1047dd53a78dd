use vstd::prelude::*;

use crate::engine::{EngineAction, EngineActionView};
use crate::session::{spec_new_session, Session, SessionView};

verus! {

/// No two sessions belong to the same guild.
pub open spec fn registry_wf(rs: Seq<SessionView>) -> bool {
    forall|i: int, j: int|
        0 <= i < j < rs.len() ==> (#[trigger] rs[i]).guild_id != (#[trigger] rs[j]).guild_id
}

/// Whether a guild has a session.
pub open spec fn contains_guild(rs: Seq<SessionView>, guild_id: u64) -> bool {
    exists|i: int| 0 <= i < rs.len() && (#[trigger] rs[i]).guild_id == guild_id
}

/// The position of the guild's session.
pub open spec fn index_of_guild(rs: Seq<SessionView>, guild_id: u64) -> int {
    choose|i: int| 0 <= i < rs.len() && (#[trigger] rs[i]).guild_id == guild_id
}

/// The guild's session; meaningful when the guild has one, which under
/// `registry_wf` is unique.
pub open spec fn session_for(rs: Seq<SessionView>, guild_id: u64) -> SessionView {
    rs[index_of_guild(rs, guild_id)]
}

/// What a get-or-create does to the registry: nothing when the guild
/// already has a session, otherwise exactly one new idle session is
/// appended.  The flag says whether a voice join happens.
pub open spec fn spec_get_or_create(rs: Seq<SessionView>, guild_id: u64, now: u64) -> (Seq<
    SessionView,
>, bool) {
    if contains_guild(rs, guild_id) {
        (rs, false)
    } else {
        (rs.push(spec_new_session(guild_id, now)), true)
    }
}

/// A sequence of `n` get-or-create calls for the same guild, counting
/// the voice joins they perform.  This is the shape a group of racing
/// callers takes once the registry serializes them.
pub open spec fn spec_run_get_or_create(
    rs: Seq<SessionView>,
    guild_id: u64,
    now: u64,
    n: nat,
) -> (Seq<SessionView>, nat)
    decreases n,
{
    if n == 0 {
        (rs, 0)
    } else {
        let prev = spec_run_get_or_create(rs, guild_id, now, (n - 1) as nat);
        let step = spec_get_or_create(prev.0, guild_id, now);
        (step.0, prev.1 + if step.1 {
            1nat
        } else {
            0nat
        })
    }
}

/// The process-wide map from guild to session.  Reads and writes reach
/// a session through its index, so the registry itself is locked only
/// for the lookup, never for the work done on the session.
#[derive(Debug)]
pub struct SessionRegistry {
    sessions: Vec<Session>,
}

impl View for SessionRegistry {
    type V = Seq<SessionView>;

    closed spec fn view(&self) -> Seq<SessionView> {
        self.sessions.deep_view()
    }
}

impl SessionRegistry {
    pub fn new() -> (r: SessionRegistry)
        ensures
            r@ == Seq::<SessionView>::empty(),
            registry_wf(r@),
    {
        let r = SessionRegistry { sessions: Vec::new() };
        proof {
            assert(r@ =~= Seq::<SessionView>::empty());
        }
        r
    }

    pub fn len(&self) -> (r: usize)
        ensures
            r == self@.len(),
    {
        self.sessions.len()
    }

    /// Find the guild's session without creating one.
    #[verifier::loop_isolation(false)]
    pub fn get(&self, guild_id: u64) -> (r: Option<usize>)
        requires
            registry_wf(self@),
        ensures
            r is Some <==> contains_guild(self@, guild_id),
            r matches Some(i) ==> i < self@.len() && self@[i as int].guild_id == guild_id,
    {
        let n = self.sessions.len();
        let mut i: usize = 0;
        while i < n
            invariant
                i <= n,
                forall|k: int| 0 <= k < i ==> (#[trigger] self@[k]).guild_id != guild_id,
            decreases n - i,
        {
            proof {
                assert(self@[i as int] == self.sessions@[i as int].deep_view());
            }
            if self.sessions[i].guild_id() == guild_id {
                return Some(i);
            }
            i += 1;
        }
        None
    }

    /// Return the guild's session, creating it when absent.  A racing
    /// caller that finds the session already present performs no voice
    /// join: the connect action is returned exactly when the session was
    /// created.  The result is the session's index and the engine calls
    /// to perform.
    pub fn get_or_create(&mut self, guild_id: u64, channel_id: u64, now: u64) -> (r: (
        usize,
        Vec<EngineAction>,
    ))
        requires
            registry_wf(old(self)@),
            old(self)@.len() < usize::MAX,
        ensures
            registry_wf(final(self)@),
            final(self)@ == spec_get_or_create(old(self)@, guild_id, now).0,
            r.0 < final(self)@.len() && final(self)@[r.0 as int].guild_id == guild_id,
            contains_guild(old(self)@, guild_id) ==> *final(self) == *old(self) && r.1@.len()
                == 0,
            !contains_guild(old(self)@, guild_id) ==> (r.0 == old(self)@.len()
                && final(self)@[r.0 as int] == spec_new_session(guild_id, now)
                && r.1.deep_view() == seq![EngineActionView::Connect { channel_id }]),
    {
        match self.get(guild_id) {
            Some(i) => (i, Vec::new()),
            None => {
                let idx = self.sessions.len();
                self.sessions.push(Session::new(guild_id, now));
                let mut acts: Vec<EngineAction> = Vec::new();
                acts.push(EngineAction::Connect { channel_id });
                proof {
                    assert(self@ =~= old(self)@.push(spec_new_session(guild_id, now)));
                    assert(acts.deep_view() =~= seq![EngineActionView::Connect { channel_id }]);
                    assert(registry_wf(self@)) by {
                        assert forall|i: int, j: int| 0 <= i < j < self@.len() implies (
                        #[trigger] self@[i]).guild_id != (#[trigger] self@[j]).guild_id by {
                            if j == self@.len() - 1 {
                                assert(!contains_guild(old(self)@, guild_id));
                                assert(old(self)@[i].guild_id != guild_id);
                            }
                        }
                    }
                }
                (idx, acts)
            },
        }
    }

    /// Borrow the session at an index for reading.
    pub fn session(&self, i: usize) -> (r: &Session)
        requires
            i < self@.len(),
        ensures
            r@ == self@[i as int],
    {
        proof {
            assert(self@[i as int] == self.sessions@[i as int].deep_view());
        }
        &self.sessions[i]
    }

    /// Borrow the session at an index for a mutating operation.  This is
    /// the per-session serialization point: the registry is left with
    /// whatever the caller makes of the session.
    pub fn session_mut(&mut self, i: usize) -> (r: &mut Session)
        requires
            i < old(self)@.len(),
        ensures
            (*r)@ == old(self)@[i as int],
            final(self)@ == old(self)@.update(i as int, (*final(r))@),
    {
        proof {
            assert(old(self)@[i as int] == old(self).sessions@[i as int].deep_view());
        }
        &mut self.sessions[i]
    }

    /// Remove the guild's session.  Removing a guild that has none is a
    /// no-op, not an error.
    pub fn remove(&mut self, guild_id: u64)
        requires
            registry_wf(old(self)@),
        ensures
            registry_wf(final(self)@),
            !contains_guild(final(self)@, guild_id),
            !contains_guild(old(self)@, guild_id) ==> *final(self) == *old(self),
            contains_guild(old(self)@, guild_id) ==> final(self)@ == old(self)@.remove(
                index_of_guild(old(self)@, guild_id),
            ),
    {
        match self.get(guild_id) {
            Some(i) => {
                let ghost ix = index_of_guild(old(self)@, guild_id);
                proof {
                    assert(old(self)@[ix].guild_id == guild_id);
                    assert(ix == i) by {
                        if ix != i {
                            assert(old(self)@[ix].guild_id != old(self)@[i as int].guild_id);
                        }
                    }
                }
                self.sessions.remove(i);
                proof {
                    assert(self@ =~= old(self)@.remove(i as int));
                    assert(registry_wf(self@)) by {
                        assert forall|a: int, b: int| 0 <= a < b < self@.len() implies (
                        #[trigger] self@[a]).guild_id != (#[trigger] self@[b]).guild_id by {
                            let oa = if a < i {
                                a
                            } else {
                                a + 1
                            };
                            let ob = if b < i {
                                b
                            } else {
                                b + 1
                            };
                            assert(self@[a] == old(self)@[oa]);
                            assert(self@[b] == old(self)@[ob]);
                        }
                    }
                    assert(!contains_guild(self@, guild_id)) by {
                        if contains_guild(self@, guild_id) {
                            let k = choose|k: int|
                                0 <= k < self@.len() && (#[trigger] self@[k]).guild_id == guild_id;
                            let ok = if k < i {
                                k
                            } else {
                                k + 1
                            };
                            assert(old(self)@[ok].guild_id == guild_id);
                            if ok != i {
                                assert(old(self)@[ok].guild_id != old(self)@[i as int].guild_id);
                            }
                        }
                    }
                }
            },
            None => {},
        }
    }
}

/// A get-or-create for a guild that already has a session is a pure
/// lookup: no voice join happens, the registry is unchanged, and the
/// caller resolves to the existing session as it stands.
pub proof fn lemma_get_or_create_reuses_existing(rs: Seq<SessionView>, guild_id: u64, now: u64)
    requires
        registry_wf(rs),
        contains_guild(rs, guild_id),
    ensures
        spec_get_or_create(rs, guild_id, now).0 == rs,
        !spec_get_or_create(rs, guild_id, now).1,
        session_for(spec_get_or_create(rs, guild_id, now).0, guild_id) == session_for(
            rs,
            guild_id,
        ),
{
}

/// A get-or-create after a get-or-create for the same guild is a pure
/// lookup: the loser of the race performs no voice join, sees the
/// winner's registry unchanged, and resolves to the very session the
/// winner created or found.
pub proof fn lemma_get_or_create_idempotent(rs: Seq<SessionView>, guild_id: u64, now1: u64, now2: u64)
    requires
        registry_wf(rs),
    ensures
        ({
            let (r1, joined1) = spec_get_or_create(rs, guild_id, now1);
            let (r2, joined2) = spec_get_or_create(r1, guild_id, now2);
            &&& joined1 == !contains_guild(rs, guild_id)
            &&& !joined2
            &&& r2 == r1
            &&& session_for(r2, guild_id) == session_for(r1, guild_id)
        }),
{
    let (r1, joined1) = spec_get_or_create(rs, guild_id, now1);
    if !contains_guild(rs, guild_id) {
        assert(r1[rs.len() as int].guild_id == guild_id);
        assert(contains_guild(r1, guild_id));
    }
}

/// For any number of serialized get-or-create calls on one guild,
/// exactly one voice join happens when the guild had no session (and
/// none when it had one), the registry settles after the first call,
/// and every caller resolves to the same session.
pub proof fn lemma_get_or_create_single_join(rs: Seq<SessionView>, guild_id: u64, now: u64, n: nat)
    requires
        registry_wf(rs),
        n >= 1,
    ensures
        spec_run_get_or_create(rs, guild_id, now, n).1 == if contains_guild(rs, guild_id) {
            0nat
        } else {
            1nat
        },
        spec_run_get_or_create(rs, guild_id, now, n).0 == spec_get_or_create(rs, guild_id, now).0,
        session_for(spec_run_get_or_create(rs, guild_id, now, n).0, guild_id) == session_for(
            spec_get_or_create(rs, guild_id, now).0,
            guild_id,
        ),
    decreases n,
{
    if n == 1 {
        lemma_get_or_create_idempotent(rs, guild_id, now, now);
        assert(spec_run_get_or_create(rs, guild_id, now, 0nat) == (rs, 0nat));
        assert(spec_run_get_or_create(rs, guild_id, now, 1nat).0 == spec_get_or_create(
            rs,
            guild_id,
            now,
        ).0);
    } else {
        lemma_get_or_create_single_join(rs, guild_id, now, (n - 1) as nat);
        let prev = spec_run_get_or_create(rs, guild_id, now, (n - 1) as nat);
        lemma_get_or_create_idempotent(rs, guild_id, now, now);
        let first = spec_get_or_create(rs, guild_id, now);
        assert(prev.0 == first.0);
        assert(contains_guild(first.0, guild_id)) by {
            if !contains_guild(rs, guild_id) {
                assert(first.0[rs.len() as int].guild_id == guild_id);
            }
        }
        assert(spec_get_or_create(prev.0, guild_id, now).1 == false);
    }
}

/// Under the registry invariant, whichever index a lookup finds for a
/// guild, it holds the one session of that guild: every caller sees the
/// same session.
pub proof fn lemma_guild_session_unique(rs: Seq<SessionView>, guild_id: u64, i: int)
    requires
        registry_wf(rs),
        0 <= i < rs.len(),
        rs[i].guild_id == guild_id,
    ensures
        rs[i] == session_for(rs, guild_id),
{
    assert(contains_guild(rs, guild_id));
    let k = index_of_guild(rs, guild_id);
    assert(rs[k].guild_id == guild_id);
    if k != i {
        assert(rs[k].guild_id != rs[i].guild_id);
    }
}

} // verus!
