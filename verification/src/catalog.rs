use vstd::prelude::*;

use crate::text::str_eq;

verus! {

/// Ghost mirror of a [`CatalogEntry`].
#[verifier::ext_equal]
pub struct CatalogEntryView {
    pub guild_id: u64,
    pub audio_name: Seq<char>,
    pub ext: Seq<char>,
}

/// One previously played track recorded for a guild, identified by its
/// audio name and file extension.
#[derive(Debug)]
pub struct CatalogEntry {
    pub guild_id: u64,
    pub audio_name: String,
    pub ext: String,
}

impl View for CatalogEntry {
    type V = CatalogEntryView;

    open spec fn view(&self) -> CatalogEntryView {
        CatalogEntryView { guild_id: self.guild_id, audio_name: self.audio_name@, ext: self.ext@ }
    }
}

impl DeepView for CatalogEntry {
    type V = CatalogEntryView;

    open spec fn deep_view(&self) -> CatalogEntryView {
        self.view()
    }
}

/// Whether two entries have the same identity: the catalog keys entries
/// by guild, audio name and extension.
pub open spec fn same_identity(a: CatalogEntryView, b: CatalogEntryView) -> bool {
    a.guild_id == b.guild_id && a.audio_name == b.audio_name && a.ext == b.ext
}

/// No two entries share an identity.
pub open spec fn entries_distinct(s: Seq<CatalogEntryView>) -> bool {
    forall|i: int, j: int|
        0 <= i < j < s.len() ==> !same_identity(#[trigger] s[i], #[trigger] s[j])
}

/// The entries recorded for one guild, in insertion order.
pub open spec fn guild_entries(s: Seq<CatalogEntryView>, guild_id: u64) -> Seq<CatalogEntryView> {
    s.filter(|e: CatalogEntryView| e.guild_id == guild_id)
}

/// What a random pick returns: nothing when the guild has no entries,
/// otherwise the entry the roll selects among the guild's entries.
pub open spec fn spec_random_pick(s: Seq<CatalogEntryView>, guild_id: u64, roll: u64) -> Option<
    CatalogEntryView,
> {
    let es = guild_entries(s, guild_id);
    if es.len() == 0 {
        None
    } else {
        Some(es[roll as int % es.len() as int])
    }
}

/// What a delete leaves behind: every entry except those of the guild
/// whose audio name matches the title.
pub open spec fn spec_delete(
    s: Seq<CatalogEntryView>,
    guild_id: u64,
    title: Seq<char>,
) -> Seq<CatalogEntryView> {
    s.filter(|e: CatalogEntryView| !(e.guild_id == guild_id && e.audio_name == title))
}

/// Filtering a sequence extended by one element keeps the filtered
/// prefix and appends the element exactly when it satisfies the
/// predicate.
pub proof fn lemma_filter_push<A>(s: Seq<A>, e: A, pred: spec_fn(A) -> bool)
    ensures
        s.push(e).filter(pred) == if pred(e) {
            s.filter(pred).push(e)
        } else {
            s.filter(pred)
        },
{
    reveal(Seq::filter);
    assert(s.push(e).drop_last() =~= s);
    assert(s.push(e).last() == e);
    if pred(e) {
        assert(s.push(e).filter(pred) =~= s.filter(pred).push(e));
    }
}

/// A filtered sequence of distinct entries is itself distinct.
pub proof fn lemma_filter_preserves_distinct(
    s: Seq<CatalogEntryView>,
    pred: spec_fn(CatalogEntryView) -> bool,
)
    requires
        entries_distinct(s),
    ensures
        entries_distinct(s.filter(pred)),
    decreases s.len(),
{
    reveal(Seq::filter);
    if s.len() > 0 {
        let rest = s.drop_last();
        assert(entries_distinct(rest)) by {
            assert(forall|i: int, j: int|
                0 <= i < j < rest.len() ==> !same_identity(#[trigger] rest[i], #[trigger] rest[j]))
                by {
                assert(forall|i: int, j: int|
                    0 <= i < j < rest.len() ==> rest[i] == s[i] && rest[j] == s[j]);
            }
        }
        lemma_filter_preserves_distinct(rest, pred);
        if pred(s.last()) {
            let fr = rest.filter(pred);
            assert(s.filter(pred) == fr.push(s.last()));
            assert forall|i: int, j: int|
                0 <= i < j < fr.push(s.last()).len() implies !same_identity(
                #[trigger] fr.push(s.last())[i],
                #[trigger] fr.push(s.last())[j],
            ) by {
                if j < fr.len() {
                    assert(!same_identity(fr[i], fr[j]));
                } else {
                    assert(fr.push(s.last())[j] == s.last());
                    assert(fr.contains(fr[i])) by {
                        assert(fr[i] == fr[i]);
                    }
                    rest.lemma_filter_contains_rev(pred, fr[i]);
                    let k = choose|k: int| 0 <= k < rest.len() && rest[k] == fr[i];
                    assert(s[k] == rest[k]);
                    assert(!same_identity(s[k], s[s.len() - 1]));
                }
            }
        }
    }
}

/// A member of the filtered sequence, found at a given index.
pub proof fn lemma_filter_elem<A>(s: Seq<A>, pred: spec_fn(A) -> bool, i: int)
    requires
        0 <= i < s.len(),
        pred(s[i]),
    ensures
        s.filter(pred).contains(s[i]),
    decreases s.len(),
{
    reveal(Seq::filter);
    if i == s.len() - 1 {
        assert(s.filter(pred).last() == s[i]);
        assert(s.filter(pred)[s.filter(pred).len() - 1] == s[i]);
    } else {
        let rest = s.drop_last();
        lemma_filter_elem(rest, pred, i);
        let k = choose|k: int| 0 <= k < rest.filter(pred).len() && rest.filter(pred)[k] == s[i];
        assert(s.filter(pred)[k] == s[i]);
    }
}

/// The per-guild catalog store: the coordinator's model of the persisted
/// list of previously played tracks, keyed by guild, audio name and
/// extension.
#[derive(Debug)]
pub struct Catalog {
    entries: Vec<CatalogEntry>,
}

impl View for Catalog {
    type V = Seq<CatalogEntryView>;

    closed spec fn view(&self) -> Seq<CatalogEntryView> {
        self.entries.deep_view()
    }
}

impl Catalog {
    /// The catalog invariant: entry identities are unique.
    pub open spec fn wf(&self) -> bool {
        entries_distinct(self@)
    }

    pub fn new() -> (r: Catalog)
        ensures
            r@ == Seq::<CatalogEntryView>::empty(),
            r.wf(),
    {
        let c = Catalog { entries: Vec::new() };
        proof {
            assert(c@ =~= Seq::<CatalogEntryView>::empty());
        }
        c
    }

    pub fn len(&self) -> (r: usize)
        ensures
            r == self@.len(),
    {
        self.entries.len()
    }

    /// Record a track for a guild.  The add is an idempotent upsert: an
    /// entry with the same identity already present leaves the catalog
    /// unchanged, and is not an error.
    #[verifier::loop_isolation(false)]
    pub fn add(&mut self, guild_id: u64, title: &str, ext: &str)
        requires
            old(self).wf(),
            old(self)@.len() < usize::MAX,
        ensures
            final(self).wf(),
            final(self)@ == if old(self)@.contains(
                (CatalogEntryView { guild_id, audio_name: title@, ext: ext@ }),
            ) {
                old(self)@
            } else {
                old(self)@.push(CatalogEntryView { guild_id, audio_name: title@, ext: ext@ })
            },
    {
        let ghost target = CatalogEntryView { guild_id, audio_name: title@, ext: ext@ };
        let n = self.entries.len();
        let mut i: usize = 0;
        while i < n
            invariant
                n == self@.len(),
                i <= n,
                forall|k: int| 0 <= k < i ==> self@[k] != target,
            decreases n - i,
        {
            let e = &self.entries[i];
            proof {
                assert(self@[i as int] == self.entries@[i as int].deep_view());
            }
            if e.guild_id == guild_id && str_eq(e.audio_name.as_str(), title) && str_eq(
                e.ext.as_str(),
                ext,
            ) {
                proof {
                    assert(self@[i as int] =~= target);
                    assert(old(self)@.contains(target));
                }
                return ;
            }
            proof {
                assert(self@[i as int] != target);
            }
            i += 1;
        }
        proof {
            assert(!old(self)@.contains(target));
        }
        let entry = CatalogEntry {
            guild_id,
            audio_name: title.to_owned(),
            ext: ext.to_owned(),
        };
        self.entries.push(entry);
        proof {
            assert(self@ =~= old(self)@.push(target));
            assert forall|i: int, j: int| 0 <= i < j < self@.len() implies !same_identity(
                #[trigger] self@[i],
                #[trigger] self@[j],
            ) by {
                if j == self@.len() - 1 {
                    if same_identity(self@[i], target) {
                        assert(self@[i] =~= target);
                        assert(old(self)@.contains(target)) by {
                            assert(old(self)@[i] == target);
                        }
                    }
                }
            }
        }
    }

    /// Pick one of the guild's entries with the given roll; a uniformly
    /// random roll picks uniformly among them.  Returns nothing exactly
    /// when the guild has no entries.
    #[verifier::loop_isolation(false)]
    pub fn random_pick(&self, guild_id: u64, roll: u64) -> (r: Option<CatalogEntry>)
        ensures
            r.deep_view() == spec_random_pick(self@, guild_id, roll),
    {
        let mut matches: Vec<CatalogEntry> = Vec::new();
        let n = self.entries.len();
        let mut i: usize = 0;
        while i < n
            invariant
                n == self@.len(),
                i <= n,
                matches.deep_view() =~= guild_entries(self@.take(i as int), guild_id),
            decreases n - i,
        {
            let e = &self.entries[i];
            proof {
                assert(self@[i as int] == self.entries@[i as int].deep_view());
                assert(self@.take(i + 1) =~= self@.take(i as int).push(self@[i as int]));
                lemma_filter_push(
                    self@.take(i as int),
                    self@[i as int],
                    |e: CatalogEntryView| e.guild_id == guild_id,
                );
            }
            if e.guild_id == guild_id {
                let copy = CatalogEntry {
                    guild_id: e.guild_id,
                    audio_name: e.audio_name.clone(),
                    ext: e.ext.clone(),
                };
                matches.push(copy);
                proof {
                    assert(matches.deep_view() =~= guild_entries(self@.take(i + 1), guild_id));
                }
            } else {
                proof {
                    assert(matches.deep_view() =~= guild_entries(self@.take(i + 1), guild_id));
                }
            }
            i += 1;
        }
        proof {
            assert(self@.take(n as int) =~= self@);
        }
        let m = matches.len();
        if m == 0 {
            None
        } else {
            let idx = (roll % (m as u64)) as usize;
            proof {
                assert(idx == roll as int % guild_entries(self@, guild_id).len() as int);
            }
            let picked = matches.remove(idx);
            Some(picked)
        }
    }

    /// Remove the guild's entries whose audio name matches the title.
    /// Entries of other guilds, and entries of this guild under other
    /// names, are untouched; deleting a title that is not recorded is a
    /// no-op, not an error.
    #[verifier::loop_isolation(false)]
    pub fn delete(&mut self, guild_id: u64, title: &str)
        requires
            old(self).wf(),
        ensures
            final(self).wf(),
            final(self)@ == spec_delete(old(self)@, guild_id, title@),
    {
        let ghost pred = |e: CatalogEntryView| !(e.guild_id == guild_id && e.audio_name == title@);
        let mut kept: Vec<CatalogEntry> = Vec::new();
        let n = self.entries.len();
        let mut i: usize = 0;
        while i < n
            invariant
                n == self@.len(),
                i <= n,
                kept.deep_view() =~= self@.take(i as int).filter(pred),
            decreases n - i,
        {
            let e = &self.entries[i];
            proof {
                assert(self@[i as int] == self.entries@[i as int].deep_view());
                assert(self@.take(i + 1) =~= self@.take(i as int).push(self@[i as int]));
                lemma_filter_push(self@.take(i as int), self@[i as int], pred);
            }
            if e.guild_id == guild_id && str_eq(e.audio_name.as_str(), title) {
                proof {
                    assert(!pred(self@[i as int]));
                    assert(kept.deep_view() =~= self@.take(i + 1).filter(pred));
                }
            } else {
                let copy = CatalogEntry {
                    guild_id: e.guild_id,
                    audio_name: e.audio_name.clone(),
                    ext: e.ext.clone(),
                };
                kept.push(copy);
                proof {
                    assert(pred(self@[i as int]));
                    assert(kept.deep_view() =~= self@.take(i + 1).filter(pred));
                }
            }
            i += 1;
        }
        proof {
            assert(self@.take(n as int) =~= self@);
        }
        self.entries = kept;
        proof {
            lemma_filter_preserves_distinct(old(self)@, pred);
        }
    }
}

/// Deleting a title for one guild never touches another guild's entry,
/// even one recorded under the same title.
pub proof fn lemma_delete_spares_other_guilds(
    s: Seq<CatalogEntryView>,
    guild_id: u64,
    title: Seq<char>,
    i: int,
)
    requires
        0 <= i < s.len(),
        s[i].guild_id != guild_id,
    ensures
        spec_delete(s, guild_id, title).contains(s[i]),
{
    lemma_filter_elem(
        s,
        |e: CatalogEntryView| !(e.guild_id == guild_id && e.audio_name == title),
        i,
    );
}

/// Everything a delete removes belonged to the guild and bore the title:
/// an entry absent afterwards but present before matched both.
pub proof fn lemma_delete_removes_only_matches(
    s: Seq<CatalogEntryView>,
    guild_id: u64,
    title: Seq<char>,
    i: int,
)
    requires
        0 <= i < s.len(),
        !spec_delete(s, guild_id, title).contains(s[i]),
    ensures
        s[i].guild_id == guild_id && s[i].audio_name == title,
{
    let pred = |e: CatalogEntryView| !(e.guild_id == guild_id && e.audio_name == title);
    if pred(s[i]) {
        lemma_filter_elem(s, pred, i);
    }
}

/// With exactly one entry recorded for the guild, every roll picks that
/// entry: the pick is deterministic on a catalog of size one.
pub proof fn lemma_pick_singleton(s: Seq<CatalogEntryView>, guild_id: u64, roll: u64)
    requires
        guild_entries(s, guild_id).len() == 1,
    ensures
        spec_random_pick(s, guild_id, roll) == Some(guild_entries(s, guild_id)[0]),
{
}

} // verus!
