//! Topic-keyed association lists with a finite-map view.
//!
//! The engine's two topic maps are vectors of `(topic, value)` pairs whose
//! keys are pairwise distinct; their contracts speak of the corresponding
//! finite map from character sequences to values.

use vstd::prelude::*;

verus! {

/// Whether the keys of `s` are pairwise distinct.
pub open spec fn keys_unique<V>(s: Seq<(String, V)>) -> bool {
    forall|i: int, j: int| 0 <= i < j < s.len() ==> s[i].0@ != s[j].0@
}

/// The finite map an association list denotes; with pairwise distinct keys,
/// a later pair never shadows an earlier one.
pub open spec fn assoc_view<V>(s: Seq<(String, V)>) -> Map<Seq<char>, V>
    decreases s.len(),
{
    if s.len() == 0 {
        Map::empty()
    } else {
        assoc_view(s.drop_last()).insert(s.last().0@, s.last().1)
    }
}

/// Each pair's key is a key of the view.
pub proof fn lemma_assoc_view_contains_at<V>(s: Seq<(String, V)>, i: int)
    requires
        0 <= i < s.len(),
    ensures
        assoc_view(s).contains_key(s[i].0@),
    decreases s.len(),
{
    if i < s.len() - 1 {
        lemma_assoc_view_contains_at(s.drop_last(), i);
        assert(s.drop_last()[i] == s[i]);
    }
}

/// The view's keys are exactly the keys of the pairs.
pub proof fn lemma_assoc_view_contains<V>(s: Seq<(String, V)>)
    ensures
        forall|k: Seq<char>|
            assoc_view(s).contains_key(k) <==> exists|i: int| 0 <= i < s.len() && s[i].0@ == k,
    decreases s.len(),
{
    if s.len() > 0 {
        lemma_assoc_view_contains(s.drop_last());
        assert forall|k: Seq<char>| assoc_view(s).contains_key(k) implies exists|i: int|
            0 <= i < s.len() && s[i].0@ == k by {
            if k == s.last().0@ {
                assert(s[s.len() - 1].0@ == k);
            } else {
                assert(assoc_view(s.drop_last()).contains_key(k));
                let i = choose|i: int| 0 <= i < s.drop_last().len() && s.drop_last()[i].0@ == k;
                assert(s.drop_last()[i] == s[i]);
                assert(s[i].0@ == k);
            }
        }
        assert forall|k: Seq<char>|
            exists|i: int| 0 <= i < s.len() && s[i].0@ == k implies assoc_view(s).contains_key(
            k,
        ) by {
            let i = choose|i: int| 0 <= i < s.len() && s[i].0@ == k;
            lemma_assoc_view_contains_at(s, i);
        }
    }
}

/// With distinct keys, the view maps each pair's key to that pair's value.
pub proof fn lemma_assoc_view_get<V>(s: Seq<(String, V)>, i: int)
    requires
        keys_unique(s),
        0 <= i < s.len(),
    ensures
        assoc_view(s).contains_key(s[i].0@),
        assoc_view(s)[s[i].0@] == s[i].1,
    decreases s.len(),
{
    if i < s.len() - 1 {
        lemma_assoc_view_get(s.drop_last(), i);
        assert(s.drop_last()[i] == s[i]);
        assert(s[i].0@ != s.last().0@);
    }
}

/// Appending a pair adds its binding to the view.
pub proof fn lemma_assoc_view_push<V>(s: Seq<(String, V)>, key: String, v: V)
    ensures
        assoc_view(s.push((key, v))) == assoc_view(s).insert(key@, v),
{
    assert(s.push((key, v)).drop_last() =~= s);
    assert(s.push((key, v)).last() == (key, v));
}

/// Appending a pair whose key is fresh keeps the keys distinct.
pub proof fn lemma_keys_unique_push<V>(s: Seq<(String, V)>, key: String, v: V)
    requires
        keys_unique(s),
        forall|i: int| 0 <= i < s.len() ==> s[i].0@ != key@,
    ensures
        keys_unique(s.push((key, v))),
{
}

/// Removing the pair at `i` removes exactly its binding from the view, and
/// keeps the keys distinct.
pub proof fn lemma_assoc_view_remove<V>(s: Seq<(String, V)>, i: int)
    requires
        keys_unique(s),
        0 <= i < s.len(),
    ensures
        keys_unique(s.remove(i)),
        assoc_view(s.remove(i)) == assoc_view(s).remove(s[i].0@),
    decreases s.len(),
{
    lemma_assoc_view_contains::<V>(s.drop_last());
    if i == s.len() - 1 {
        assert(s.remove(i) =~= s.drop_last());
        assert(!assoc_view(s.drop_last()).contains_key(s[i].0@));
        assert(assoc_view(s.drop_last()) =~= assoc_view(s.drop_last()).insert(
            s.last().0@,
            s.last().1,
        ).remove(s[i].0@));
    } else {
        lemma_assoc_view_remove(s.drop_last(), i);
        assert(s.remove(i).drop_last() =~= s.drop_last().remove(i));
        assert(s.remove(i).last() == s.last());
        assert(s[i].0@ != s.last().0@);
        assert(assoc_view(s.remove(i)) == assoc_view(s.drop_last().remove(i)).insert(
            s.last().0@,
            s.last().1,
        ));
        assert(assoc_view(s.drop_last()).remove(s[i].0@).insert(s.last().0@, s.last().1)
            =~= assoc_view(s.drop_last()).insert(s.last().0@, s.last().1).remove(s[i].0@));
    }
}

/// Removing a pair frees its key: with distinct keys, no pair of the
/// shortened list carries the removed pair's key.
pub proof fn lemma_remove_frees_key<V>(s: Seq<(String, V)>, i: int)
    requires
        keys_unique(s),
        0 <= i < s.len(),
    ensures
        forall|m: int| 0 <= m < s.remove(i).len() ==> s.remove(i)[m].0@ != s[i].0@,
{
    assert forall|m: int| 0 <= m < s.remove(i).len() implies s.remove(i)[m].0@ != s[i].0@ by {
        if m < i {
            assert(s.remove(i)[m] == s[m]);
        } else {
            assert(s.remove(i)[m] == s[m + 1]);
        }
    }
}

/// Looks a key up in an association list, returning the position of its
/// pair if the key is bound.
pub fn assoc_find<V>(v: &Vec<(String, V)>, key: &String) -> (r: Option<usize>)
    ensures
        match r {
            Some(i) => i < v@.len() && v@[i as int].0@ == key@ && assoc_view(v@).contains_key(
                key@,
            ),
            None => !assoc_view(v@).contains_key(key@),
        },
{
    proof {
        lemma_assoc_view_contains(v@);
    }
    let n = v.len();
    let mut i: usize = 0;
    while i < n
        invariant
            n == v@.len(),
            i <= n,
            forall|j: int| 0 <= j < i ==> v@[j].0@ != key@,
        decreases n - i,
    {
        if v[i].0 == *key {
            proof {
                assert(v@[i as int].0@ == key@);
                lemma_assoc_view_contains_at(v@, i as int);
            }
            return Some(i);
        }
        i = i + 1;
    }
    None
}

} // verus!
