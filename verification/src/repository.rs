//! The durable source registry, keyed by source name.
//!
//! In memory the registry is a vector of records with pairwise distinct
//! names; its mathematical value is the map from each name to its record.
//! `save` upserts by name, `list` hands out copies — callers can never
//! mutate stored state except through `save`.

use vstd::prelude::*;

use crate::model::{Source, SourceView};
use crate::source_type::str_eq;

verus! {

/// The map a sequence of records denotes: later records win on a name clash.
pub open spec fn map_of(s: Seq<Source>) -> Map<Seq<char>, SourceView>
    decreases s.len(),
{
    if s.len() == 0 {
        Map::empty()
    } else {
        map_of(s.drop_last()).insert(s.last()@.name, s.last()@)
    }
}

/// Name is the sole identity key: no two records may share one.
pub open spec fn names_unique(s: Seq<Source>) -> bool {
    forall|i: int, j: int| 0 <= i < j < s.len() ==> s[i]@.name != s[j]@.name
}

proof fn lemma_map_of_keys(s: Seq<Source>)
    ensures
        forall|k: Seq<char>|
            map_of(s).contains_key(k) <==> exists|i: int|
                0 <= i < s.len() && (#[trigger] s[i])@.name == k,
    decreases s.len(),
{
    if s.len() > 0 {
        lemma_map_of_keys(s.drop_last());
        assert forall|k: Seq<char>| map_of(s).contains_key(k) implies exists|i: int|
            0 <= i < s.len() && (#[trigger] s[i])@.name == k by {
            if k == s.last()@.name {
                assert(s[s.len() - 1]@.name == k);
            } else {
                assert(map_of(s.drop_last()).contains_key(k));
                let i = choose|i: int|
                    0 <= i < s.drop_last().len() && (#[trigger] s.drop_last()[i])@.name == k;
                assert(s[i]@.name == k);
            }
        }
        assert forall|k: Seq<char>|
            (exists|i: int|
                0 <= i < s.len() && (#[trigger] s[i])@.name == k) implies map_of(s).contains_key(
            k,
        ) by {
            let i = choose|i: int| 0 <= i < s.len() && (#[trigger] s[i])@.name == k;
            if i < s.len() - 1 {
                assert(s.drop_last()[i]@.name == k);
                assert(map_of(s.drop_last()).contains_key(k));
            } else {
                assert(map_of(s) == map_of(s.drop_last()).insert(k, s.last()@));
            }
        }
    }
}

proof fn lemma_map_of_index(s: Seq<Source>, i: int)
    requires
        names_unique(s),
        0 <= i < s.len(),
    ensures
        map_of(s).contains_key(s[i]@.name),
        map_of(s)[s[i]@.name] == s[i]@,
    decreases s.len(),
{
    if i < s.len() - 1 {
        assert(names_unique(s.drop_last()));
        lemma_map_of_index(s.drop_last(), i);
        assert(s.drop_last()[i] == s[i]);
        assert(s[i]@.name != s.last()@.name);
    }
}

proof fn lemma_map_of_update(s: Seq<Source>, i: int, e: Source)
    requires
        names_unique(s),
        0 <= i < s.len(),
        e@.name == s[i]@.name,
    ensures
        map_of(s.update(i, e)) == map_of(s).insert(e@.name, e@),
        names_unique(s.update(i, e)),
    decreases s.len(),
{
    let t = s.update(i, e);
    assert forall|x: int, y: int| 0 <= x < y < t.len() implies t[x]@.name != t[y]@.name by {
        assert(t[x]@.name == s[x]@.name && t[y]@.name == s[y]@.name);
    }
    if i == s.len() - 1 {
        assert(t.drop_last() =~= s.drop_last());
        assert(t.last() == e);
        assert(map_of(s).insert(e@.name, e@) =~= map_of(s.drop_last()).insert(e@.name, e@));
    } else {
        assert(names_unique(s.drop_last()));
        assert(s.drop_last()[i] == s[i]);
        lemma_map_of_update(s.drop_last(), i, e);
        assert(t.drop_last() =~= s.drop_last().update(i, e));
        assert(t.last() == s.last());
        assert(e@.name != s.last()@.name);
        assert(map_of(t) == map_of(s.drop_last()).insert(e@.name, e@).insert(
            s.last()@.name,
            s.last()@,
        ));
        assert(map_of(s.drop_last()).insert(e@.name, e@).insert(s.last()@.name, s.last()@)
            =~= map_of(s.drop_last()).insert(s.last()@.name, s.last()@).insert(e@.name, e@));
    }
}

proof fn lemma_map_of_push(s: Seq<Source>, e: Source)
    ensures
        map_of(s.push(e)) == map_of(s).insert(e@.name, e@),
{
    assert(s.push(e).drop_last() =~= s);
    assert(s.push(e).last() == e);
}

/// Durable store of `Source` records keyed by name. The in-memory map is the
/// verified part; reading and writing the backing file, and the backup copy
/// made before every overwrite, are modeled by `store::StoreFiles`.
pub struct SourceRepository {
    entries: Vec<Source>,
}

impl View for SourceRepository {
    type V = Map<Seq<char>, SourceView>;

    closed spec fn view(&self) -> Map<Seq<char>, SourceView> {
        map_of(self.entries@)
    }
}

impl SourceRepository {
    /// Well-formed: stored names are pairwise distinct.
    pub closed spec fn wf(&self) -> bool {
        names_unique(self.entries@)
    }

    /// A first run starts from nothing: the registry is empty, not an error.
    pub fn new() -> (r: SourceRepository)
        ensures
            r.wf(),
            r@ == Map::<Seq<char>, SourceView>::empty(),
    {
        SourceRepository { entries: Vec::new() }
    }

    /// Upserts by name: a second record with the same name replaces the
    /// first; a new name is added. No other record is touched.
    pub fn save(&mut self, s: &Source)
        requires
            old(self).wf(),
        ensures
            final(self).wf(),
            final(self)@ == old(self)@.insert(s@.name, s@),
    {
        let n: usize = self.entries.len();
        let mut i: usize = 0;
        while i < n
            invariant
                0 <= i <= n,
                n == self.entries@.len(),
                self.entries@ == old(self).entries@,
                old(self).wf(),
                forall|j: int| 0 <= j < i ==> (#[trigger] self.entries@[j])@.name != s@.name,
            decreases n - i,
        {
            if str_eq(self.entries[i].name().as_str(), s.name().as_str()) {
                let c = s.clone();
                proof {
                    assert(self.entries@ == old(self).entries@);
                    assert(names_unique(self.entries@));
                    lemma_map_of_update(self.entries@, i as int, c);
                }
                self.entries[i] = c;
                return ;
            }
            i = i + 1;
        }
        let c = s.clone();
        proof {
            lemma_map_of_push(self.entries@, c);
            assert forall|x: int, y: int|
                0 <= x < y < self.entries@.push(c).len() implies (#[trigger] self.entries@.push(
                c,
            )[x])@.name != (#[trigger] self.entries@.push(c)[y])@.name by {
                if y < self.entries@.len() {
                    assert(self.entries@.push(c)[x] == self.entries@[x]);
                    assert(self.entries@.push(c)[y] == self.entries@[y]);
                } else {
                    assert(self.entries@.push(c)[x] == self.entries@[x]);
                    assert(self.entries@.push(c)[y] == c);
                }
            }
        }
        self.entries.push(c);
    }

    /// Copies of every stored record, in unspecified order: each returned
    /// record is in the registry under its name, and every registered name
    /// appears exactly once.
    pub fn list(&self) -> (r: Vec<Source>)
        requires
            self.wf(),
        ensures
            forall|i: int|
                0 <= i < r@.len() ==> self@.contains_key((#[trigger] r@[i])@.name)
                    && self@[r@[i]@.name] == r@[i]@,
            forall|k: Seq<char>|
                self@.contains_key(k) ==> exists|i: int|
                    0 <= i < r@.len() && (#[trigger] r@[i])@.name == k,
            forall|i: int, j: int| 0 <= i < j < r@.len() ==> r@[i]@.name != r@[j]@.name,
    {
        let n: usize = self.entries.len();
        let mut out: Vec<Source> = Vec::new();
        let mut i: usize = 0;
        while i < n
            invariant
                0 <= i <= n,
                n == self.entries@.len(),
                out@.len() == i,
                forall|j: int| 0 <= j < i ==> (#[trigger] out@[j])@ == self.entries@[j]@,
            decreases n - i,
        {
            out.push(self.entries[i].clone());
            i = i + 1;
        }
        proof {
            lemma_map_of_keys(self.entries@);
            assert forall|j: int| 0 <= j < out@.len() implies self@.contains_key(
                (#[trigger] out@[j])@.name,
            ) && self@[out@[j]@.name] == out@[j]@ by {
                lemma_map_of_index(self.entries@, j);
            }
            assert forall|k: Seq<char>| self@.contains_key(k) implies exists|j: int|
                0 <= j < out@.len() && (#[trigger] out@[j])@.name == k by {
                let j = choose|j: int|
                    0 <= j < self.entries@.len() && (#[trigger] self.entries@[j])@.name == k;
                assert(out@[j]@.name == k);
            }
        }
        out
    }
}

/// Law: round trip. After `save(s)` the registry holds, under `s`'s name, a
/// record equal to `s` in every field; `list` then yields exactly that record
/// for that name.
pub proof fn lemma_save_round_trip(m: Map<Seq<char>, SourceView>, s: SourceView)
    ensures
        m.insert(s.name, s).contains_key(s.name),
        m.insert(s.name, s)[s.name] == s,
{
}

/// Law: idempotence. Saving the same record twice leaves the registry in the
/// same observable state as saving it once.
pub proof fn lemma_save_idempotent(m: Map<Seq<char>, SourceView>, s: SourceView)
    ensures
        m.insert(s.name, s).insert(s.name, s) == m.insert(s.name, s),
{
    assert(m.insert(s.name, s).insert(s.name, s) =~= m.insert(s.name, s));
}

} // verus!
