use vstd::prelude::*;

verus! {

/// The single failure kind of a record store. Absence of a record is never a
/// failure: operations report it as an empty result.
#[derive(Debug, Clone, Copy, PartialEq, Eq)]
pub struct StoreError;

/// The operations every record store provides, over records of type `R`
/// identified by values of type `I`.
pub trait RecordStore<R, I> {
    type Error;

    /// Inserts `record` and returns the identifier assigned to it.
    fn create_record(&mut self, record: R) -> Result<I, Self::Error>;

    /// Removes the record with identifier `record_id`, returning its last value,
    /// or `None` where no such record is live.
    fn delete_record(&mut self, record_id: I) -> Result<Option<R>, Self::Error>;

    /// Returns the current value of the record with identifier `record_id`,
    /// or `None` where no such record is live.
    fn get_record(&self, record_id: I) -> Result<Option<R>, Self::Error>;

    /// Returns up to `count` records starting at offset `start`, in store order.
    fn get_records(&self, start: usize, count: usize) -> Result<Vec<(I, R)>, Self::Error>;

    /// Replaces the value of the record with identifier `record_id` by what
    /// `patch` makes of it, and returns the new value.
    fn patch_record<F: Fn(R) -> Result<R, Self::Error>>(&mut self, record_id: I, patch: F) -> Result<R, Self::Error>
        requires
            forall|r: R| #[trigger] patch.requires((r,)),
    ;
}

} // verus!
