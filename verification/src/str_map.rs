//! A small map from strings to values, kept as an association list with distinct keys.
//! Its view is a `Map` from character sequences to values.
use vstd::prelude::*;

use crate::text::str_eq;

verus! {

pub open spec fn to_map<V>(s: Seq<(String, V)>) -> Map<Seq<char>, V>
    decreases s.len(),
{
    if s.len() == 0 {
        Map::empty()
    } else {
        to_map(s.drop_last()).insert(s.last().0@, s.last().1)
    }
}

pub open spec fn distinct_keys<V>(s: Seq<(String, V)>) -> bool {
    forall|i: int, j: int| 0 <= i < j < s.len() ==> (#[trigger] s[i]).0@ != (#[trigger] s[j]).0@
}

pub proof fn lemma_to_map<V>(s: Seq<(String, V)>)
    requires
        distinct_keys(s),
    ensures
        forall|k: Seq<char>|
            #![trigger to_map(s).dom().contains(k)]
            to_map(s).dom().contains(k) <==> exists|i: int| 0 <= i < s.len() && (#[trigger] s[i]).0@ == k,
        forall|i: int| 0 <= i < s.len() ==> to_map(s)[(#[trigger] s[i]).0@] == s[i].1,
        to_map(s).dom().finite(),
        to_map(s).dom().len() == s.len(),
    decreases s.len(),
{
    if s.len() > 0 {
        let init = s.drop_last();
        assert forall|i: int, j: int| 0 <= i < j < init.len() implies (#[trigger] init[i]).0@ != (
        #[trigger] init[j]).0@ by {
            assert(init[i] == s[i]);
            assert(init[j] == s[j]);
        }
        lemma_to_map(init);
        let last = s.last();
        assert(!to_map(init).dom().contains(last.0@)) by {
            if to_map(init).dom().contains(last.0@) {
                let i = choose|i: int| 0 <= i < init.len() && (#[trigger] init[i]).0@ == last.0@;
                assert(s[i] == init[i]);
            }
        }
        assert forall|k: Seq<char>| to_map(s).dom().contains(k) <==> exists|i: int|
            0 <= i < s.len() && (#[trigger] s[i]).0@ == k by {
            if to_map(s).dom().contains(k) {
                if k == last.0@ {
                    assert(s[s.len() - 1].0@ == k);
                } else {
                    let i = choose|i: int| 0 <= i < init.len() && (#[trigger] init[i]).0@ == k;
                    assert(s[i] == init[i]);
                }
            }
            if exists|i: int| 0 <= i < s.len() && (#[trigger] s[i]).0@ == k {
                let i = choose|i: int| 0 <= i < s.len() && (#[trigger] s[i]).0@ == k;
                if i < s.len() - 1 {
                    assert(init[i] == s[i]);
                }
            }
        }
        assert forall|i: int| 0 <= i < s.len() implies to_map(s)[(#[trigger] s[i]).0@] == s[i].1 by {
            if i < s.len() - 1 {
                assert(init[i] == s[i]);
            }
        }
    }
}

pub struct StrMap<V> {
    entries: Vec<(String, V)>,
}

impl<V> View for StrMap<V> {
    type V = Map<Seq<char>, V>;

    closed spec fn view(&self) -> Map<Seq<char>, V> {
        to_map(self.entries@)
    }
}

impl<V> StrMap<V> {
    /// Keys are distinct.
    pub closed spec fn wf(&self) -> bool {
        distinct_keys(self.entries@)
    }

    pub fn new() -> (r: Self)
        ensures
            r.wf(),
            r@ == Map::<Seq<char>, V>::empty(),
    {
        StrMap { entries: Vec::new() }
    }

    fn find(&self, key: &str) -> (r: usize)
        requires
            self.wf(),
        ensures
            r <= self.entries.len(),
            r < self.entries.len() ==> self.entries@[r as int].0@ == key@,
            r == self.entries.len() ==> forall|i: int|
                0 <= i < self.entries.len() ==> (#[trigger] self.entries@[i]).0@ != key@,
    {
        let mut i: usize = 0;
        while i < self.entries.len()
            invariant
                i <= self.entries.len(),
                forall|m: int| 0 <= m < i ==> (#[trigger] self.entries@[m]).0@ != key@,
            decreases self.entries.len() - i,
        {
            if str_eq(self.entries[i].0.as_str(), key) {
                return i;
            }
            i = i + 1;
        }
        i
    }

    pub fn len(&self) -> (r: usize)
        requires
            self.wf(),
        ensures
            r == self@.dom().len(),
    {
        proof {
            lemma_to_map(self.entries@);
        }
        self.entries.len()
    }

    pub fn get(&self, key: &str) -> (r: Option<&V>)
        requires
            self.wf(),
        ensures
            match r {
                Some(v) => self@.dom().contains(key@) && self@[key@] == *v,
                None => !self@.dom().contains(key@),
            },
    {
        proof {
            lemma_to_map(self.entries@);
        }
        let i = self.find(key);
        if i < self.entries.len() {
            Some(&self.entries[i].1)
        } else {
            None
        }
    }

    pub fn insert(&mut self, key: String, value: V)
        requires
            old(self).wf(),
        ensures
            final(self).wf(),
            final(self)@ == old(self)@.insert(key@, value),
    {
        proof {
            lemma_to_map(self.entries@);
        }
        let ghost old_entries = self.entries@;
        let i = self.find(key.as_str());
        if i < self.entries.len() {
            self.entries.set(i, (key, value));
            proof {
                let s = self.entries@;
                assert forall|a: int, b: int| 0 <= a < b < s.len() implies (#[trigger] s[a]).0@ != (
                #[trigger] s[b]).0@ by {
                    assert(s[a].0@ == old_entries[a].0@);
                    assert(s[b].0@ == old_entries[b].0@);
                }
                lemma_to_map(s);
                assert forall|k: Seq<char>| #[trigger] to_map(s).dom().contains(k) <==> to_map(old_entries).insert(key@, value).dom().contains(k) by {
                    if exists|m: int| 0 <= m < s.len() && (#[trigger] s[m]).0@ == k {
                        let m = choose|m: int| 0 <= m < s.len() && (#[trigger] s[m]).0@ == k;
                        assert(old_entries[m].0@ == k);
                    }
                    if to_map(old_entries).dom().contains(k) {
                        let m = choose|m: int| 0 <= m < old_entries.len() && (#[trigger] old_entries[m]).0@ == k;
                        assert(s[m].0@ == k);
                    }
                }
                assert forall|k: Seq<char>| #[trigger] to_map(s).dom().contains(k) implies to_map(s)[k] == to_map(old_entries).insert(key@, value)[k] by {
                    let m = choose|m: int| 0 <= m < s.len() && (#[trigger] s[m]).0@ == k;
                    if m != i {
                        assert(s[m] == old_entries[m]);
                    }
                }
                assert(to_map(s) =~= to_map(old_entries).insert(key@, value));
            }
        } else {
            self.entries.push((key, value));
            proof {
                let s = self.entries@;
                assert(s.drop_last() =~= old_entries);
                assert forall|a: int, b: int| 0 <= a < b < s.len() implies (#[trigger] s[a]).0@ != (
                #[trigger] s[b]).0@ by {
                    if b < s.len() - 1 {
                        assert(s[a] == old_entries[a]);
                        assert(s[b] == old_entries[b]);
                    } else {
                        assert(s[a] == old_entries[a]);
                    }
                }
            }
        }
    }

    pub fn remove(&mut self, key: &str)
        requires
            old(self).wf(),
        ensures
            final(self).wf(),
            final(self)@ == old(self)@.remove(key@),
    {
        proof {
            lemma_to_map(self.entries@);
        }
        let ghost old_entries = self.entries@;
        let i = self.find(key);
        if i < self.entries.len() {
            self.entries.remove(i);
            proof {
                let s = self.entries@;
                assert forall|a: int, b: int| 0 <= a < b < s.len() implies (#[trigger] s[a]).0@ != (
                #[trigger] s[b]).0@ by {
                    let oa = if a < i { a } else { a + 1 };
                    let ob = if b < i { b } else { b + 1 };
                    assert(s[a] == old_entries[oa]);
                    assert(s[b] == old_entries[ob]);
                }
                lemma_to_map(s);
                assert forall|k: Seq<char>| #[trigger] to_map(s).dom().contains(k) <==> to_map(old_entries).remove(key@).dom().contains(k) by {
                    if exists|m: int| 0 <= m < s.len() && (#[trigger] s[m]).0@ == k {
                        let m = choose|m: int| 0 <= m < s.len() && (#[trigger] s[m]).0@ == k;
                        let om = if m < i { m } else { m + 1 };
                        assert(s[m] == old_entries[om]);
                    }
                    if to_map(old_entries).remove(key@).dom().contains(k) {
                        let m = choose|m: int| 0 <= m < old_entries.len() && (#[trigger] old_entries[m]).0@ == k;
                        assert(m != i);
                        let sm = if m < i { m } else { m - 1 };
                        assert(s[sm] == old_entries[m]);
                    }
                }
                assert forall|k: Seq<char>| #[trigger] to_map(s).dom().contains(k) implies to_map(s)[k] == to_map(old_entries).remove(key@)[k] by {
                    let m = choose|m: int| 0 <= m < s.len() && (#[trigger] s[m]).0@ == k;
                    let om = if m < i { m } else { m + 1 };
                    assert(s[m] == old_entries[om]);
                }
                assert(to_map(s) =~= to_map(old_entries).remove(key@));
            }
        } else {
            assert(to_map(old_entries) =~= to_map(old_entries).remove(key@));
        }
    }

    pub fn clear(&mut self)
        ensures
            final(self).wf(),
            final(self)@ == Map::<Seq<char>, V>::empty(),
    {
        self.entries.clear();
    }
}

} // verus!
