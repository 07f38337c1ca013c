//! Persistent state: the configuration singleton and the keyed actor registry.

use vstd::prelude::*;
use crate::dna::DIGEST_WIDTH;
use crate::species::Species;

verus! {

/// The configuration singleton. Created once at initialization; only
/// `swigs` changes afterwards.
pub struct State {
    /// Identity of the deploying actor. Immutable after creation.
    pub owner: String,
    /// How many digest bytes the derivation keeps.
    pub dna_length: usize,
    /// The modulus applied to each kept digest byte.
    pub dna_modulus: u8,
    /// Remaining registration budget.
    pub swigs: u8,
}

impl State {
    /// The configuration's invariant: the derivation parameters are in range.
    pub open spec fn wf(&self) -> bool {
        self.dna_length <= DIGEST_WIDTH && self.dna_modulus >= 1
    }
}

/// One actor record, created on registration and keyed by `address`.
pub struct Imbiber {
    pub address: String,
    pub species: Species,
    pub name: String,
    pub cyborg_dna: Vec<u8>,
}

/// The registry table: at most one actor record per identity.
pub struct Registry {
    entries: Vec<(String, Imbiber)>,
}

/// The map that a sequence of keyed entries denotes; later entries win.
pub open spec fn entries_to_map(s: Seq<(String, Imbiber)>) -> Map<Seq<char>, Imbiber>
    decreases s.len(),
{
    if s.len() == 0 {
        Map::empty()
    } else {
        entries_to_map(s.drop_last()).insert(s.last().0@, s.last().1)
    }
}

/// No two entries share a key.
pub open spec fn unique_keys(s: Seq<(String, Imbiber)>) -> bool {
    forall|i: int, j: int| 0 <= i < j < s.len() ==> s[i].0@ != s[j].0@
}

impl View for Registry {
    type V = Map<Seq<char>, Imbiber>;

    closed spec fn view(&self) -> Map<Seq<char>, Imbiber> {
        entries_to_map(self.entries@)
    }
}

proof fn lemma_map_contains(s: Seq<(String, Imbiber)>, k: Seq<char>)
    ensures
        entries_to_map(s).contains_key(k) <==> exists|i: int| 0 <= i < s.len() && s[i].0@ == k,
    decreases s.len(),
{
    if s.len() == 0 {
    } else {
        let prefix = s.drop_last();
        lemma_map_contains(prefix, k);
        if s.last().0@ == k {
            assert(s[s.len() - 1].0@ == k);
        } else {
            if entries_to_map(s).contains_key(k) {
                let i = choose|i: int| 0 <= i < prefix.len() && prefix[i].0@ == k;
                assert(s[i].0@ == k);
            }
            if exists|i: int| 0 <= i < s.len() && s[i].0@ == k {
                let i = choose|i: int| 0 <= i < s.len() && s[i].0@ == k;
                assert(i < s.len() - 1);
                assert(prefix[i].0@ == k);
            }
        }
    }
}

proof fn lemma_map_index(s: Seq<(String, Imbiber)>, i: int)
    requires
        unique_keys(s),
        0 <= i < s.len(),
    ensures
        entries_to_map(s).contains_key(s[i].0@),
        entries_to_map(s)[s[i].0@] == s[i].1,
    decreases s.len(),
{
    if i < s.len() - 1 {
        let prefix = s.drop_last();
        assert(prefix[i] == s[i]);
        lemma_map_index(prefix, i);
        assert(s[i].0@ != s.last().0@);
    }
}

proof fn lemma_map_update(s: Seq<(String, Imbiber)>, i: int, v: (String, Imbiber))
    requires
        unique_keys(s),
        0 <= i < s.len(),
        v.0@ == s[i].0@,
    ensures
        entries_to_map(s.update(i, v)) == entries_to_map(s).insert(v.0@, v.1),
        unique_keys(s.update(i, v)),
    decreases s.len(),
{
    let s2 = s.update(i, v);
    if i == s.len() - 1 {
        assert(s2.drop_last() =~= s.drop_last());
        assert(entries_to_map(s2) =~= entries_to_map(s).insert(v.0@, v.1));
    } else {
        let prefix = s.drop_last();
        assert(prefix[i] == s[i]);
        lemma_map_update(prefix, i, v);
        assert(s2.drop_last() =~= prefix.update(i, v));
        assert(s2.last() == s.last());
        assert(v.0@ != s.last().0@);
        assert(entries_to_map(s2) =~= entries_to_map(s).insert(v.0@, v.1));
    }
    assert forall|p: int, q: int| 0 <= p < q < s2.len() implies s2[p].0@ != s2[q].0@ by {
        assert(s[p].0@ != s[q].0@);
    }
}

proof fn lemma_map_push(s: Seq<(String, Imbiber)>, v: (String, Imbiber))
    requires
        unique_keys(s),
        forall|i: int| 0 <= i < s.len() ==> s[i].0@ != v.0@,
    ensures
        entries_to_map(s.push(v)) == entries_to_map(s).insert(v.0@, v.1),
        unique_keys(s.push(v)),
{
    let s2 = s.push(v);
    assert(s2.drop_last() =~= s);
    assert(s2.last() == v);
    assert forall|p: int, q: int| 0 <= p < q < s2.len() implies s2[p].0@ != s2[q].0@ by {
        if q < s2.len() - 1 {
            assert(s[p].0@ != s[q].0@);
        } else {
            assert(s[p].0@ != v.0@);
        }
    }
}

impl Registry {
    /// The registry's invariant: entry keys are pairwise distinct.
    pub closed spec fn wf(&self) -> bool {
        unique_keys(self.entries@)
    }

    /// An empty registry.
    pub fn new() -> (r: Registry)
        ensures
            r.wf(),
            r@ == Map::<Seq<char>, Imbiber>::empty(),
    {
        let r = Registry { entries: Vec::new() };
        proof {
            assert(r@ =~= Map::<Seq<char>, Imbiber>::empty());
        }
        r
    }

    /// Loads the record stored under `key`, if any.
    pub fn load(&self, key: &String) -> (r: Option<&Imbiber>)
        requires
            self.wf(),
        ensures
            match r {
                Option::Some(rec) => self@.contains_key(key@) && *rec == self@[key@],
                Option::None => !self@.contains_key(key@),
            },
    {
        let n = self.entries.len();
        let mut i: usize = 0;
        while i < n
            invariant
                n == self.entries@.len(),
                i <= n,
                self.wf(),
                forall|j: int| 0 <= j < i ==> self.entries@[j].0@ != key@,
            decreases n - i,
        {
            if self.entries[i].0 == *key {
                proof {
                    lemma_map_index(self.entries@, i as int);
                }
                return Option::Some(&self.entries[i].1);
            }
            i = i + 1;
        }
        proof {
            lemma_map_contains(self.entries@, key@);
        }
        Option::None
    }

    /// Stores `value` under `key`, creating or overwriting the record.
    pub fn save(&mut self, key: String, value: Imbiber)
        requires
            old(self).wf(),
        ensures
            final(self).wf(),
            final(self)@ == old(self)@.insert(key@, value),
    {
        let ghost s0 = self.entries@;
        let ghost gkey = key@;
        let n = self.entries.len();
        let mut i: usize = 0;
        while i < n
            invariant
                self.entries@ == s0,
                self.entries@ == old(self).entries@,
                n == s0.len(),
                i <= n,
                unique_keys(s0),
                forall|j: int| 0 <= j < i ==> s0[j].0@ != gkey,
                key@ == gkey,
            decreases n - i,
        {
            if self.entries[i].0 == key {
                self.entries[i] = (key, value);
                proof {
                    let e = self.entries@[i as int];
                    assert(self.entries@ == s0.update(i as int, e));
                    lemma_map_update(s0, i as int, e);
                }
                return;
            }
            i = i + 1;
        }
        self.entries.push((key, value));
        proof {
            let e = self.entries@.last();
            assert(self.entries@ == s0.push(e));
            lemma_map_push(s0, e);
        }
    }
}

/// The whole persistent state that a handler works on.
pub struct Hub {
    pub config: State,
    pub registry: Registry,
}

impl Hub {
    /// Well-formedness of the whole state.
    pub open spec fn wf(&self) -> bool {
        self.config.wf() && self.registry.wf()
    }
}

} // verus!
