//! The committed key-value pairs: a list of entries with distinct keys,
//! read as a mapping from key to value.
use vstd::prelude::*;

verus! {

/// The key and value of each entry, as character sequences, in order.
pub open spec fn entries_view(v: Seq<(String, String)>) -> Seq<(Seq<char>, Seq<char>)> {
    v.map_values(|e: (String, String)| (e.0@, e.1@))
}

/// No key occurs in two entries.
pub open spec fn keys_unique(s: Seq<(Seq<char>, Seq<char>)>) -> bool {
    forall|i: int, j: int| 0 <= i < j < s.len() ==> #[trigger] s[i].0 != #[trigger] s[j].0
}

/// The mapping that a list of entries stands for (a later entry wins over an
/// earlier one with the same key).
pub open spec fn to_map(s: Seq<(Seq<char>, Seq<char>)>) -> Map<Seq<char>, Seq<char>>
    decreases s.len(),
{
    if s.len() == 0 {
        Map::empty()
    } else {
        to_map(s.drop_last()).insert(s.last().0, s.last().1)
    }
}

/// The mapping has finitely many keys, and has none exactly when there are no entries.
pub proof fn lemma_to_map_finite(s: Seq<(Seq<char>, Seq<char>)>)
    ensures
        to_map(s).dom().finite(),
        s.len() == 0 <==> to_map(s).dom() =~= Set::empty(),
    decreases s.len(),
{
    if s.len() > 0 {
        lemma_to_map_finite(s.drop_last());
        assert(to_map(s).dom().contains(s.last().0));
    }
}

/// With distinct keys, giving one entry a new value is an insertion into the mapping.
pub proof fn lemma_to_map_update(s: Seq<(Seq<char>, Seq<char>)>, i: int, v: Seq<char>)
    requires
        keys_unique(s),
        0 <= i < s.len(),
    ensures
        to_map(s.update(i, (s[i].0, v))) == to_map(s).insert(s[i].0, v),
    decreases s.len(),
{
    let t = s.update(i, (s[i].0, v));
    assert(t.drop_last() =~= if i == s.len() - 1 {
        s.drop_last()
    } else {
        s.drop_last().update(i, (s[i].0, v))
    });
    if i < s.len() - 1 {
        let p = s.drop_last();
        assert(p[i] == s[i]);
        lemma_to_map_update(p, i, v);
        assert(s.last().0 != s[i].0);
        assert(to_map(t) =~= to_map(s).insert(s[i].0, v));
    } else {
        assert(to_map(t) =~= to_map(s).insert(s[i].0, v));
    }
}

/// Sets `key` to `value` among `entries`: the entry that holds `key` takes
/// the new value, or a new entry is added at the end.
pub fn insert_pair(entries: &mut Vec<(String, String)>, key: String, value: String)
    requires
        keys_unique(entries_view(old(entries)@)),
    ensures
        keys_unique(entries_view(final(entries)@)),
        to_map(entries_view(final(entries)@)) == to_map(entries_view(old(entries)@)).insert(
            key@,
            value@,
        ),
{
    let ghost before = entries_view(entries@);
    let mut i: usize = 0;
    while i < entries.len()
        invariant
            entries@ == old(entries)@,
            before == entries_view(entries@),
            keys_unique(before),
            i <= entries.len(),
            forall|j: int| 0 <= j < i ==> #[trigger] before[j].0 != key@,
        decreases entries.len() - i,
    {
        if entries[i].0 == key {
            proof {
                lemma_to_map_update(before, i as int, value@);
            }
            entries[i] = (key, value);
            assert(entries_view(entries@) =~= before.update(i as int, (before[i as int].0, value@)));
            return;
        }
        i += 1;
    }
    entries.push((key, value));
    assert(entries_view(entries@) =~= before.push((key@, value@)));
    assert(entries_view(entries@).drop_last() =~= before);
}

} // verus!
