use vstd::prelude::*;

use crate::records::{
    has_id, ids_ascending, index_of, lemma_index_of_unique, lookup, next_id, page, replaced,
    with_record, without,
};

verus! {

/// Reading a record right after creating it gives back the content it was
/// created with, and creation keeps identifiers ascending.
pub proof fn lemma_get_after_create(s: Seq<(usize, Seq<char>)>, c: Seq<char>)
    requires
        ids_ascending(s),
        next_id(s) <= usize::MAX,
    ensures
        ids_ascending(with_record(s, c)),
        lookup(with_record(s, c), next_id(s) as usize) == Some(c),
{
    let t = with_record(s, c);
    assert forall|i: int, j: int| 0 <= i < j < t.len() implies (#[trigger] t[i]).0 < (#[trigger] t[j]).0 by {
        if j == s.len() {
            assert(s[i].0 <= s.last().0);
        }
    }
    lemma_index_of_unique(t, s.len() as int);
}

/// Deleting a live record removes exactly that record: the first deletion
/// finds its content, a second one finds nothing.
pub proof fn lemma_delete_once(s: Seq<(usize, Seq<char>)>, id: usize)
    requires
        ids_ascending(s),
        has_id(s, id),
    ensures
        lookup(s, id) == Some(s[index_of(s, id)].1),
        ids_ascending(without(s, id)),
        lookup(without(s, id), id).is_none(),
        without(without(s, id), id) == without(s, id),
{
    let k = index_of(s, id);
    let t = without(s, id);
    assert(t == s.remove(k));
    assert forall|i: int, j: int| 0 <= i < j < t.len() implies (#[trigger] t[i]).0 < (#[trigger] t[j]).0 by {
        let i2 = if i < k { i } else { i + 1 };
        let j2 = if j < k { j } else { j + 1 };
        assert(t[i] == s[i2] && t[j] == s[j2]);
    }
    if has_id(t, id) {
        let m = choose|m: int| 0 <= m < t.len() && (#[trigger] t[m]).0 == id;
        let m2 = if m < k { m } else { m + 1 };
        assert(t[m] == s[m2]);
        if m2 < k {
            assert(s[m2].0 < s[k].0);
        } else {
            assert(s[k].0 < s[m2].0);
        }
    }
}

/// Absence is not failure: on an identifier that no record has, reading finds
/// nothing and deleting leaves the store as it was.
pub proof fn lemma_absent(s: Seq<(usize, Seq<char>)>, id: usize)
    requires
        !has_id(s, id),
    ensures
        lookup(s, id).is_none(),
        without(s, id) == s,
{
}

/// A page holds consecutive records in store order, as many as `count` allows
/// and the store holds past `start`; past the end it is empty.
pub proof fn lemma_page_shape(s: Seq<(usize, Seq<char>)>, start: int, count: int)
    requires
        0 <= start,
        0 <= count,
    ensures
        start >= s.len() ==> page(s, start, count).len() == 0,
        start < s.len() ==> page(s, start, count).len() == if start + count <= s.len() {
            count
        } else {
            s.len() - start
        },
        forall|i: int| 0 <= i < page(s, start, count).len() ==> #[trigger] page(s, start, count)[i] == s[start + i],
{
}

/// After a record is patched to `c`, reading it gives `c`; identifiers stay
/// ascending and all other records are unchanged.
pub proof fn lemma_patch_then_get(s: Seq<(usize, Seq<char>)>, id: usize, c: Seq<char>)
    requires
        ids_ascending(s),
        has_id(s, id),
    ensures
        ids_ascending(replaced(s, id, c)),
        lookup(replaced(s, id, c), id) == Some(c),
        forall|other: usize| other != id ==> #[trigger] lookup(replaced(s, id, c), other) == lookup(s, other),
{
    let k = index_of(s, id);
    let t = replaced(s, id, c);
    assert(t == s.update(k, (id, c)));
    assert forall|i: int, j: int| 0 <= i < j < t.len() implies (#[trigger] t[i]).0 < (#[trigger] t[j]).0 by {
        assert(t[i].0 == s[i].0 && t[j].0 == s[j].0);
    }
    lemma_index_of_unique(t, k);
    assert forall|other: usize| other != id implies #[trigger] lookup(t, other) == lookup(s, other) by {
        if has_id(s, other) {
            let m = index_of(s, other);
            lemma_index_of_unique(s, m);
            lemma_index_of_unique(t, m);
        } else if has_id(t, other) {
            let m = choose|m: int| 0 <= m < t.len() && (#[trigger] t[m]).0 == other;
            assert(s[m].0 == other);
        }
    }
}

} // verus!
