//! Text-keyed association lists with unique keys. Every cache index in this
//! crate (the by-route store index, the by-key relation index, the claim
//! cache, the rate-limiter windows) is such a list; the contracts speak of
//! the finite map a list denotes.

use vstd::prelude::*;
use vstd::pervasive::VecAdditionalExecFns;
use crate::strutil::str_eq;

verus! {

/// The map an association list denotes; a later entry shadows an earlier one.
pub open spec fn assoc_map<V>(s: Seq<(String, V)>) -> Map<Seq<char>, V>
    decreases s.len(),
{
    if s.len() == 0 {
        Map::empty()
    } else {
        assoc_map(s.drop_last()).insert(s.last().0@, s.last().1)
    }
}

/// No two entries share a key.
pub open spec fn assoc_unique<V>(s: Seq<(String, V)>) -> bool {
    forall|i: int, j: int|
        0 <= i < j < s.len() ==> (#[trigger] s[i]).0@ != (#[trigger] s[j]).0@
}

/// A key is in the map exactly when some entry carries it.
pub proof fn lemma_assoc_contains<V>(s: Seq<(String, V)>, k: Seq<char>)
    ensures
        assoc_map(s).contains_key(k) <==> exists|i: int|
            0 <= i < s.len() && (#[trigger] s[i]).0@ == k,
    decreases s.len(),
{
    if s.len() > 0 {
        lemma_assoc_contains(s.drop_last(), k);
        if s.last().0@ == k {
            assert((s[s.len() - 1]).0@ == k);
        } else {
            if exists|i: int| 0 <= i < s.len() && (#[trigger] s[i]).0@ == k {
                let i = choose|i: int| 0 <= i < s.len() && (#[trigger] s[i]).0@ == k;
                assert(i < s.len() - 1);
                assert((s.drop_last()[i]).0@ == k);
            }
            if assoc_map(s).contains_key(k) {
                let i = choose|i: int|
                    0 <= i < s.drop_last().len() && (#[trigger] s.drop_last()[i]).0@ == k;
                assert((s[i]).0@ == k);
            }
        }
    }
}

/// With unique keys, the map sends each entry's key to that entry's value.
pub proof fn lemma_assoc_value<V>(s: Seq<(String, V)>, j: int)
    requires
        assoc_unique(s),
        0 <= j < s.len(),
    ensures
        assoc_map(s).contains_key(s[j].0@),
        assoc_map(s)[s[j].0@] == s[j].1,
    decreases s.len(),
{
    if j < s.len() - 1 {
        assert(assoc_unique(s.drop_last())) by {
            assert(forall|a: int, b: int|
                0 <= a < b < s.drop_last().len() ==> (#[trigger] s.drop_last()[a]).0@
                    != (#[trigger] s.drop_last()[b]).0@) by {
                assert(forall|a: int|
                    0 <= a < s.drop_last().len() ==> #[trigger] s.drop_last()[a] == s[a]);
            }
        }
        lemma_assoc_value(s.drop_last(), j);
        assert(s.drop_last()[j] == s[j]);
        assert((s[j]).0@ != (s[s.len() - 1]).0@);
    }
}

/// Looks a key up; `Some` exactly when the denoted map holds it, and then
/// the mapped value.
pub fn assoc_get<'a, V>(list: &'a Vec<(String, V)>, k: &str) -> (r: Option<&'a V>)
    requires
        assoc_unique(list@),
    ensures
        match r {
            Some(v) => assoc_map(list@).contains_key(k@) && *v == assoc_map(list@)[k@],
            None => !assoc_map(list@).contains_key(k@),
        },
{
    let n: usize = list.len();
    let mut i: usize = 0;
    while i < n
        invariant
            assoc_unique(list@),
            n == list@.len(),
            0 <= i <= n,
            forall|j: int| 0 <= j < i ==> (#[trigger] list@[j]).0@ != k@,
        decreases n - i,
    {
        let entry = &list[i];
        if str_eq(entry.0.as_str(), k) {
            proof {
                lemma_assoc_value(list@, i as int);
            }
            return Some(&entry.1);
        }
        i += 1;
    }
    proof {
        lemma_assoc_contains(list@, k@);
    }
    None
}

proof fn lemma_assoc_update<V>(s: Seq<(String, V)>, i: int, e: (String, V))
    requires
        assoc_unique(s),
        0 <= i < s.len(),
        s[i].0@ == e.0@,
    ensures
        assoc_unique(s.update(i, e)),
        assoc_map(s.update(i, e)) == assoc_map(s).insert(e.0@, e.1),
{
    let t = s.update(i, e);
    let m1 = assoc_map(t);
    let m2 = assoc_map(s).insert(e.0@, e.1);
    assert(t.len() == s.len());
    assert(t[i] == e);
    assert(assoc_unique(t)) by {
        assert(forall|a: int| 0 <= a < s.len() ==> (#[trigger] t[a]).0@ == (s[a]).0@);
    }
    assert forall|k: Seq<char>| #[trigger] m1.contains_key(k) implies m2.contains_key(k) by {
        lemma_assoc_contains(t, k);
        let j = choose|j: int| 0 <= j < t.len() && (#[trigger] t[j]).0@ == k;
        if j != i {
            assert((s[j]).0@ == k);
            lemma_assoc_contains(s, k);
        }
    }
    assert forall|k: Seq<char>| #[trigger] m2.contains_key(k) implies m1.contains_key(k) by {
        lemma_assoc_contains(t, k);
        if k == e.0@ {
            assert((t[i]).0@ == k);
        } else {
            lemma_assoc_contains(s, k);
            let j = choose|j: int| 0 <= j < s.len() && (#[trigger] s[j]).0@ == k;
            assert(j != i);
            assert((t[j]).0@ == k);
        }
    }
    assert forall|k: Seq<char>| #[trigger] m1.contains_key(k) implies m1[k] == m2[k] by {
        if k == e.0@ {
            lemma_assoc_value(t, i);
        } else {
            lemma_assoc_contains(t, k);
            let j = choose|j: int| 0 <= j < t.len() && (#[trigger] t[j]).0@ == k;
            assert(j != i);
            assert(t[j] == s[j]);
            lemma_assoc_value(t, j);
            lemma_assoc_value(s, j);
        }
    }
    assert(m1 =~= m2);
}

/// Binds a key to a value: overwrites the entry that carries the key, or
/// appends one; exactly the denoted map's `insert`.
pub fn assoc_set<V>(list: &mut Vec<(String, V)>, key: String, value: V)
    requires
        assoc_unique(old(list)@),
    ensures
        assoc_unique(final(list)@),
        assoc_map(final(list)@) == assoc_map(old(list)@).insert(key@, value),
{
    let n: usize = list.len();
    let mut i: usize = 0;
    while i < n
        invariant
            assoc_unique(list@),
            list@ == old(list)@,
            n == list@.len(),
            0 <= i <= n,
            forall|j: int| 0 <= j < i ==> (#[trigger] list@[j]).0@ != key@,
        decreases n - i,
    {
        let hit = str_eq(list[i].0.as_str(), key.as_str());
        if hit {
            let ghost prev = list@;
            list.set(i, (key, value));
            proof {
                assert(list@ == prev.update(i as int, (list@[i as int])));
                lemma_assoc_update(prev, i as int, list@[i as int]);
            }
            return;
        }
        i += 1;
    }
    let ghost prev = list@;
    list.push((key, value));
    proof {
        assert(list@.drop_last() =~= prev);
        assert(list@.last() == (list@[list@.len() - 1]));
        assert(assoc_map(list@) == assoc_map(prev).insert(key@, value));
        assert forall|a: int, b: int| 0 <= a < b < list@.len()
            implies (#[trigger] list@[a]).0@ != (#[trigger] list@[b]).0@ by {
            if b == list@.len() - 1 {
                assert((list@[a]).0@ != key@);
            }
        }
    }
}

proof fn lemma_assoc_removed<V>(s: Seq<(String, V)>, i: int)
    requires
        assoc_unique(s),
        0 <= i < s.len(),
    ensures
        assoc_unique(s.remove(i)),
        assoc_map(s.remove(i)) == assoc_map(s).remove(s[i].0@),
{
    let t = s.remove(i);
    let k0 = s[i].0@;
    let m1 = assoc_map(t);
    let m2 = assoc_map(s).remove(k0);
    assert(t.len() == s.len() - 1);
    assert(forall|a: int| 0 <= a < i ==> #[trigger] t[a] == s[a]);
    assert(forall|a: int| i <= a < t.len() ==> #[trigger] t[a] == s[a + 1]);
    assert(assoc_unique(t));
    assert forall|k: Seq<char>| #[trigger] m1.contains_key(k) implies m2.contains_key(k) by {
        lemma_assoc_contains(t, k);
        lemma_assoc_contains(s, k);
        let j = choose|j: int| 0 <= j < t.len() && (#[trigger] t[j]).0@ == k;
        if j < i {
            assert((s[j]).0@ == k);
            assert(j != i ==> k != k0);
        } else {
            assert((s[j + 1]).0@ == k);
            assert(j + 1 != i);
        }
        assert(k != k0) by {
            if j < i {
                assert((s[j]).0@ != (s[i]).0@);
            } else {
                assert((s[i]).0@ != (s[j + 1]).0@);
            }
        }
    }
    assert forall|k: Seq<char>| #[trigger] m2.contains_key(k) implies m1.contains_key(k) by {
        lemma_assoc_contains(t, k);
        lemma_assoc_contains(s, k);
        assert(k != k0);
        let j = choose|j: int| 0 <= j < s.len() && (#[trigger] s[j]).0@ == k;
        assert(j != i);
        if j < i {
            assert((t[j]).0@ == k);
        } else {
            assert((t[j - 1]).0@ == k);
        }
    }
    assert forall|k: Seq<char>| #[trigger] m1.contains_key(k) implies m1[k] == m2[k] by {
        lemma_assoc_contains(t, k);
        let j = choose|j: int| 0 <= j < t.len() && (#[trigger] t[j]).0@ == k;
        lemma_assoc_value(t, j);
        if j < i {
            lemma_assoc_value(s, j);
            assert((s[j]).0@ != (s[i]).0@);
        } else {
            lemma_assoc_value(s, j + 1);
            assert((s[i]).0@ != (s[j + 1]).0@);
        }
    }
    assert(m1 =~= m2);
}

/// Drops a key: exactly the denoted map's `remove`; no effect when the key
/// is absent.
pub fn assoc_remove<V>(list: &mut Vec<(String, V)>, k: &str)
    requires
        assoc_unique(old(list)@),
    ensures
        assoc_unique(final(list)@),
        assoc_map(final(list)@) == assoc_map(old(list)@).remove(k@),
{
    let n: usize = list.len();
    let mut i: usize = 0;
    while i < n
        invariant
            assoc_unique(list@),
            list@ == old(list)@,
            n == list@.len(),
            0 <= i <= n,
            forall|j: int| 0 <= j < i ==> (#[trigger] list@[j]).0@ != k@,
        decreases n - i,
    {
        let hit = str_eq(list[i].0.as_str(), k);
        if hit {
            let ghost prev = list@;
            list.remove(i);
            proof {
                lemma_assoc_removed(prev, i as int);
            }
            return;
        }
        i += 1;
    }
    proof {
        lemma_assoc_contains(list@, k@);
        assert(assoc_map(list@) =~= assoc_map(list@).remove(k@));
    }
}

} // verus!
