use vstd::prelude::*;

verus! {

/// Identifiers strictly increase along the sequence; in particular each
/// identifier occurs at most once.
pub open spec fn ids_ascending(s: Seq<(usize, Seq<char>)>) -> bool {
    forall|i: int, j: int| 0 <= i < j < s.len() ==> (#[trigger] s[i]).0 < (#[trigger] s[j]).0
}

/// The identifier the next created record receives: one past the identifier
/// of the last record, or zero for an empty sequence.
pub open spec fn next_id(s: Seq<(usize, Seq<char>)>) -> int {
    if s.len() == 0 {
        0
    } else {
        s.last().0 + 1
    }
}

/// The sequence after creating a record with content `c`.
pub open spec fn with_record(s: Seq<(usize, Seq<char>)>, c: Seq<char>) -> Seq<(usize, Seq<char>)> {
    s.push((next_id(s) as usize, c))
}

/// Some record of `s` has identifier `id`.
pub open spec fn has_id(s: Seq<(usize, Seq<char>)>, id: usize) -> bool {
    exists|i: int| 0 <= i < s.len() && (#[trigger] s[i]).0 == id
}

/// The position of the record with identifier `id` (meaningful where `has_id`).
pub open spec fn index_of(s: Seq<(usize, Seq<char>)>, id: usize) -> int {
    choose|i: int| 0 <= i < s.len() && (#[trigger] s[i]).0 == id
}

/// The content of the record with identifier `id`, if there is one.
pub open spec fn lookup(s: Seq<(usize, Seq<char>)>, id: usize) -> Option<Seq<char>> {
    if has_id(s, id) {
        Some(s[index_of(s, id)].1)
    } else {
        None
    }
}

/// The sequence with the record of identifier `id` removed, others kept in order.
pub open spec fn without(s: Seq<(usize, Seq<char>)>, id: usize) -> Seq<(usize, Seq<char>)> {
    if has_id(s, id) {
        s.remove(index_of(s, id))
    } else {
        s
    }
}

/// The sequence with the content of the record of identifier `id` replaced by `c`.
pub open spec fn replaced(s: Seq<(usize, Seq<char>)>, id: usize, c: Seq<char>) -> Seq<(usize, Seq<char>)> {
    if has_id(s, id) {
        s.update(index_of(s, id), (id, c))
    } else {
        s
    }
}

/// Up to `count` consecutive records of `s` starting at offset `start`;
/// empty where `start` is past the end.
pub open spec fn page(s: Seq<(usize, Seq<char>)>, start: int, count: int) -> Seq<(usize, Seq<char>)> {
    if start >= s.len() {
        Seq::empty()
    } else if start + count >= s.len() {
        s.subrange(start, s.len() as int)
    } else {
        s.subrange(start, start + count)
    }
}

/// In a sequence with ascending identifiers, a record found at position `k`
/// is the one `index_of` names.
pub proof fn lemma_index_of_unique(s: Seq<(usize, Seq<char>)>, k: int)
    requires
        ids_ascending(s),
        0 <= k < s.len(),
    ensures
        has_id(s, s[k].0),
        index_of(s, s[k].0) == k,
        lookup(s, s[k].0) == Some(s[k].1),
{
    let id = s[k].0;
    assert(0 <= k < s.len() && s[k].0 == id);
    let i = index_of(s, id);
    if i < k {
        assert(s[i].0 < s[k].0);
    } else if k < i {
        assert(s[k].0 < s[i].0);
    }
}

} // verus!
