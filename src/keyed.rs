//! A small keyed collection: entries named by a `String`, at most one entry
//! per name, seen as a `Map` from the name to the value.

use vstd::prelude::*;

verus! {

/// No two entries share a name.
pub open spec fn unique_keys<X>(s: Seq<(String, X)>) -> bool {
    forall|i: int, j: int| 0 <= i < s.len() && 0 <= j < s.len() && i != j ==> s[i].0@ != s[j].0@
}

/// The map that a list of named entries stands for; a later entry wins.
pub open spec fn map_of<X>(s: Seq<(String, X)>) -> Map<Seq<char>, X>
    decreases s.len(),
{
    if s.len() == 0 {
        Map::empty()
    } else {
        map_of(s.drop_last()).insert(s.last().0@, s.last().1)
    }
}

pub proof fn lemma_map_of_key<X>(s: Seq<(String, X)>, k: Seq<char>)
    ensures
        map_of(s).contains_key(k) <==> (exists|i: int| 0 <= i < s.len() && s[i].0@ == k),
    decreases s.len(),
{
    if s.len() > 0 {
        let d = s.drop_last();
        lemma_map_of_key(d, k);
        if map_of(s).contains_key(k) {
            if k == s.last().0@ {
                assert(s[s.len() - 1].0@ == k);
            } else {
                let i = choose|i: int| 0 <= i < d.len() && d[i].0@ == k;
                assert(s[i].0@ == k);
            }
        }
        if exists|i: int| 0 <= i < s.len() && s[i].0@ == k {
            let i = choose|i: int| 0 <= i < s.len() && s[i].0@ == k;
            if i < s.len() - 1 {
                assert(d[i].0@ == k);
            }
        }
    }
}

pub proof fn lemma_map_of_finite<X>(s: Seq<(String, X)>)
    ensures
        map_of(s).dom().finite(),
    decreases s.len(),
{
    if s.len() > 0 {
        lemma_map_of_finite(s.drop_last());
    }
}

pub proof fn lemma_map_of_finite_len<X>(s: Seq<(String, X)>)
    requires
        unique_keys(s),
    ensures
        map_of(s).dom().finite(),
        map_of(s).dom().len() == s.len(),
    decreases s.len(),
{
    if s.len() > 0 {
        let d = s.drop_last();
        assert(unique_keys(d));
        lemma_map_of_finite_len(d);
        lemma_map_of_key(d, s.last().0@);
        if map_of(d).contains_key(s.last().0@) {
            let i = choose|i: int| 0 <= i < d.len() && d[i].0@ == s.last().0@;
            assert(s[i].0@ == s[s.len() - 1].0@);
        }
        assert(map_of(s).dom() =~= map_of(d).dom().insert(s.last().0@));
    }
}

pub proof fn lemma_map_of_remove<X>(s: Seq<(String, X)>, i: int)
    requires
        unique_keys(s),
        0 <= i < s.len(),
    ensures
        map_of(s.remove(i)) == map_of(s).remove(s[i].0@),
        unique_keys(s.remove(i)),
    decreases s.len(),
{
    let k = s[i].0@;
    let d = s.drop_last();
    assert(unique_keys(d));
    if i == s.len() - 1 {
        assert(s.remove(i) =~= d);
        lemma_map_of_key(d, k);
        if map_of(d).contains_key(k) {
            let j = choose|j: int| 0 <= j < d.len() && d[j].0@ == k;
            assert(s[j].0@ == s[i].0@);
        }
        assert(map_of(s).remove(k) =~= map_of(d));
    } else {
        lemma_map_of_remove(d, i);
        assert(s.remove(i).drop_last() =~= d.remove(i));
        assert(s.remove(i).last() == s.last());
        assert(s[s.len() - 1].0@ != k);
        assert(map_of(s.remove(i)) =~= map_of(s).remove(k));
    }
    let r = s.remove(i);
    assert forall|a: int, b: int| 0 <= a < r.len() && 0 <= b < r.len() && a != b implies r[a].0@
        != r[b].0@ by {
        let sa = if a < i { a } else { a + 1 };
        let sb = if b < i { b } else { b + 1 };
        assert(r[a] == s[sa]);
        assert(r[b] == s[sb]);
    }
}

fn find<X>(entries: &Vec<(String, X)>, k: &String) -> (r: Option<usize>)
    ensures
        match r {
            Some(i) => i < entries@.len() && entries@[i as int].0@ == k@,
            None => !map_of(entries@).contains_key(k@),
        },
{
    let mut i: usize = 0;
    while i < entries.len()
        invariant
            i <= entries@.len(),
            forall|j: int| 0 <= j < i ==> entries@[j].0@ != k@,
        decreases entries@.len() - i,
    {
        if entries[i].0 == *k {
            return Some(i);
        }
        i = i + 1;
    }
    proof {
        lemma_map_of_key(entries@, k@);
    }
    None
}

/// Entries named by a `String`, one per name.
pub struct Keyed<X> {
    entries: Vec<(String, X)>,
}

impl<X> View for Keyed<X> {
    type V = Map<Seq<char>, X>;

    closed spec fn view(&self) -> Map<Seq<char>, X> {
        map_of(self.entries@)
    }
}

/// A keyed collection holds finitely many entries.
pub proof fn lemma_keyed_finite<X>(k: Keyed<X>)
    ensures
        k@.dom().finite(),
{
    lemma_map_of_finite(k.entries@);
}

impl<X> Keyed<X> {
    #[verifier::type_invariant]
    spec fn inv(self) -> bool {
        unique_keys(self.entries@)
    }

    /// No entries.
    pub fn new() -> (r: Self)
        ensures
            r@ == Map::<Seq<char>, X>::empty(),
    {
        Keyed { entries: Vec::new() }
    }

    /// Whether an entry is named `k`.
    pub fn contains(&self, k: &String) -> (r: bool)
        ensures
            r == self@.contains_key(k@),
    {
        proof {
            lemma_map_of_key(self.entries@, k@);
        }
        match find(&self.entries, k) {
            Some(i) => {
                assert(self.entries@[i as int].0@ == k@);
                true
            },
            None => false,
        }
    }

    /// Number of entries.
    pub fn len(&self) -> (r: usize)
        ensures
            r == self@.len(),
    {
        proof {
            use_type_invariant(self);
            lemma_map_of_finite_len(self.entries@);
        }
        self.entries.len()
    }

    /// Puts `v` under `k`, replacing what was there; says whether something was.
    pub fn insert(&mut self, k: String, v: X) -> (r: bool)
        ensures
            final(self)@ == old(self)@.insert(k@, v),
            r == old(self)@.contains_key(k@),
    {
        proof {
            use_type_invariant(&*self);
        }
        let mut es: Vec<(String, X)> = Vec::new();
        std::mem::swap(&mut es, &mut self.entries);
        let ghost s0 = es@;
        let r = match find(&es, &k) {
            Some(i) => {
                proof {
                    lemma_map_of_key(es@, k@);
                    assert(es@[i as int].0@ == k@);
                    lemma_map_of_remove(es@, i as int);
                }
                let _ = es.remove(i);
                true
            },
            None => false,
        };
        proof {
            lemma_map_of_key(es@, k@);
            let s = es@.push((k, v));
            assert forall|a: int, b: int| 0 <= a < s.len() && 0 <= b < s.len() && a != b implies s[a].0@
                != s[b].0@ by {
                if a < s.len() - 1 && b < s.len() - 1 {
                    assert(s[a] == es@[a]);
                    assert(s[b] == es@[b]);
                } else if a < s.len() - 1 {
                    assert(s[a] == es@[a]);
                } else {
                    assert(s[b] == es@[b]);
                }
            }
            assert(s.drop_last() =~= es@);
            assert(map_of(s) =~= map_of(s0).insert(k@, v));
        }
        es.push((k, v));
        std::mem::swap(&mut es, &mut self.entries);
        r
    }

    /// Drops the entry named `k`, if any; says whether there was one.
    pub fn remove(&mut self, k: &String) -> (r: bool)
        ensures
            final(self)@ == old(self)@.remove(k@),
            r == old(self)@.contains_key(k@),
    {
        proof {
            use_type_invariant(&*self);
            lemma_map_of_key(self.entries@, k@);
        }
        let mut es: Vec<(String, X)> = Vec::new();
        std::mem::swap(&mut es, &mut self.entries);
        let r = match find(&es, k) {
            Some(i) => {
                proof {
                    lemma_map_of_remove(es@, i as int);
                }
                let _ = es.remove(i);
                true
            },
            None => {
                proof {
                    assert(map_of(es@).remove(k@) =~= map_of(es@));
                }
                false
            },
        };
        std::mem::swap(&mut es, &mut self.entries);
        r
    }

    /// Hands out every entry and leaves none.
    pub fn take_all(&mut self) -> (r: Vec<(String, X)>)
        ensures
            map_of(r@) == old(self)@,
            unique_keys(r@),
            final(self)@ == Map::<Seq<char>, X>::empty(),
    {
        proof {
            use_type_invariant(&*self);
        }
        let mut out = Vec::new();
        std::mem::swap(&mut out, &mut self.entries);
        out
    }

    /// The entries, in the order they were put in.
    pub fn entries(&self) -> (r: &Vec<(String, X)>)
        ensures
            map_of(r@) == self@,
            unique_keys(r@),
    {
        proof {
            use_type_invariant(self);
        }
        &self.entries
    }
}

} // verus!
