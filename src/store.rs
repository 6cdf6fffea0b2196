use vstd::prelude::*;

use crate::model::{RecordStore, StoreError};
use crate::records::{
    has_id, ids_ascending, index_of, lemma_index_of_unique, lookup, next_id, page, replaced,
    with_record, without,
};

verus! {

/// The task store: an ordered sequence of `(identifier, content)` records.
/// Order is insertion order, less the records that were deleted.
///
/// Identifiers strictly increase along the sequence (its type invariant), so
/// no two live records share one. A shared store puts a value of this type
/// behind a single exclusive lock and runs each operation, creation included,
/// inside one critical section.
pub struct VecStore {
    entries: Vec<(usize, String)>,
}

/// The contents of a record list, each content taken as its characters.
pub open spec fn contents_of(v: Seq<(usize, String)>) -> Seq<(usize, Seq<char>)> {
    v.map_values(|e: (usize, String)| (e.0, e.1@))
}

/// The content of an optional record, taken as its characters.
pub open spec fn content_view(o: Option<String>) -> Option<Seq<char>> {
    match o {
        Some(c) => Some(c@),
        None => None,
    }
}

impl View for VecStore {
    type V = Seq<(usize, Seq<char>)>;

    closed spec fn view(&self) -> Seq<(usize, Seq<char>)> {
        contents_of(self.entries@)
    }
}

impl VecStore {
    #[verifier::type_invariant]
    spec fn inv(self) -> bool {
        ids_ascending(contents_of(self.entries@))
    }

    /// An empty store.
    pub fn new() -> (r: VecStore)
        ensures
            r@ == Seq::<(usize, Seq<char>)>::empty(),
            ids_ascending(r@),
    {
        let r = VecStore { entries: Vec::new() };
        assert(r@ =~= Seq::<(usize, Seq<char>)>::empty());
        r
    }

    /// The position of the record with identifier `record_id`, if any.
    fn position(&self, record_id: usize) -> (r: Option<usize>)
        ensures
            ids_ascending(self@),
            match r {
                Some(k) => k < self@.len() && self@[k as int].0 == record_id
                    && index_of(self@, record_id) == k
                    && lookup(self@, record_id) == Some(self@[k as int].1),
                None => !has_id(self@, record_id) && lookup(self@, record_id).is_none(),
            },
    {
        proof { use_type_invariant(self); }
        let n = self.entries.len();
        let mut i: usize = 0;
        while i < n
            invariant
                n == self@.len(),
                i <= n,
                ids_ascending(self@),
                forall|j: int| 0 <= j < i ==> (#[trigger] self@[j]).0 != record_id,
            decreases n - i,
        {
            if self.entries[i].0 == record_id {
                proof { lemma_index_of_unique(self@, i as int); }
                return Some(i);
            }
            i += 1;
        }
        None
    }
}

impl RecordStore<String, usize> for VecStore {
    type Error = StoreError;

    /// The new record gets one past the identifier of the last record, or zero
    /// in an empty store, and is appended. Where the last identifier is
    /// `usize::MAX` no identifier is left: the store fails and is unchanged.
    fn create_record(&mut self, record: String) -> (r: Result<usize, StoreError>)
        ensures
            ids_ascending(final(self)@),
            match r {
                Ok(id) => id == next_id(old(self)@) && final(self)@ == with_record(old(self)@, record@),
                Err(_) => next_id(old(self)@) > usize::MAX && final(self)@ == old(self)@,
            },
    {
        proof { use_type_invariant(&*self); }
        let n = self.entries.len();
        let new_id: usize = if n == 0 {
            0
        } else {
            let last = self.entries[n - 1].0;
            if last == usize::MAX {
                return Err(StoreError);
            }
            last + 1
        };
        let mut entries: Vec<(usize, String)> = Vec::new();
        std::mem::swap(&mut entries, &mut self.entries);
        let ghost before = entries@;
        entries.push((new_id, record));
        proof {
            assert(contents_of(entries@) =~= with_record(contents_of(before), record@));
        }
        self.entries = entries;
        Ok(new_id)
    }

    /// Removes the record with that identifier, keeping the others in order.
    fn delete_record(&mut self, record_id: usize) -> (r: Result<Option<String>, StoreError>)
        ensures
            ids_ascending(final(self)@),
            final(self)@ == without(old(self)@, record_id),
            match r {
                Ok(o) => content_view(o) == lookup(old(self)@, record_id),
                Err(_) => false,
            },
    {
        match self.position(record_id) {
            Some(k) => {
                let mut entries: Vec<(usize, String)> = Vec::new();
                std::mem::swap(&mut entries, &mut self.entries);
                let ghost before = entries@;
                let (_, content) = entries.remove(k);
                proof {
                    assert(contents_of(entries@) =~= contents_of(before).remove(k as int));
                }
                self.entries = entries;
                Ok(Some(content))
            },
            None => Ok(None),
        }
    }

    /// Reads without changing anything.
    fn get_record(&self, record_id: usize) -> (r: Result<Option<String>, StoreError>)
        ensures
            ids_ascending(self@),
            match r {
                Ok(o) => content_view(o) == lookup(self@, record_id),
                Err(_) => false,
            },
    {
        match self.position(record_id) {
            Some(k) => Ok(Some(self.entries[k].1.clone())),
            None => Ok(None),
        }
    }

    /// Copies the page out; never fails, and is empty past the end.
    fn get_records(&self, start: usize, count: usize) -> (r: Result<Vec<(usize, String)>, StoreError>)
        ensures
            ids_ascending(self@),
            match r {
                Ok(v) => contents_of(v@) == page(self@, start as int, count as int),
                Err(_) => false,
            },
    {
        proof { use_type_invariant(self); }
        let n = self.entries.len();
        let mut out: Vec<(usize, String)> = Vec::new();
        if start >= n {
            assert(contents_of(out@) =~= page(self@, start as int, count as int));
            return Ok(out);
        }
        let end: usize = if count >= n - start { n } else { start + count };
        let mut i: usize = start;
        while i < end
            invariant
                n == self@.len(),
                start <= i <= end <= n,
                contents_of(out@) =~= self@.subrange(start as int, i as int),
            decreases end - i,
        {
            let e = &self.entries[i];
            let ghost prev = out@;
            out.push((e.0, e.1.clone()));
            proof {
                assert(contents_of(out@) =~= contents_of(prev).push(self@[i as int]));
                assert(self@.subrange(start as int, i + 1) =~= self@.subrange(start as int, i as int).push(self@[i as int]));
            }
            i += 1;
        }
        assert(contents_of(out@) =~= page(self@, start as int, count as int));
        Ok(out)
    }

    /// Fails where no record has the identifier or where `patch` fails, and
    /// then leaves the store unchanged; otherwise writes the new value back in
    /// the record's place.
    fn patch_record<F: Fn(String) -> Result<String, StoreError>>(&mut self, record_id: usize, patch: F) -> (r: Result<String, StoreError>)
        ensures
            ids_ascending(final(self)@),
            match r {
                Ok(p) => has_id(old(self)@, record_id)
                    && (exists|v: String| v@ == lookup(old(self)@, record_id).unwrap()
                        && #[trigger] patch.ensures((v,), Ok::<String, StoreError>(p)))
                    && final(self)@ == replaced(old(self)@, record_id, p@),
                Err(e) => final(self)@ == old(self)@
                    && (has_id(old(self)@, record_id) ==> exists|v: String| v@ == lookup(old(self)@, record_id).unwrap()
                        && #[trigger] patch.ensures((v,), Err::<String, StoreError>(e))),
            },
    {
        let k = match self.position(record_id) {
            Some(k) => k,
            None => return Err(StoreError),
        };
        let current = self.entries[k].1.clone();
        match patch(current) {
            Ok(p) => {
                let mut entries: Vec<(usize, String)> = Vec::new();
                std::mem::swap(&mut entries, &mut self.entries);
                let ghost before = entries@;
                entries.set(k, (record_id, p.clone()));
                proof {
                    assert(contents_of(entries@) =~= contents_of(before).update(k as int, (record_id, p@)));
                }
                self.entries = entries;
                Ok(p)
            },
            Err(e) => Err(e),
        }
    }
}

} // verus!
