use vstd::prelude::*;

use crate::model::RecordStore;
use crate::records::{lookup, next_id, page, with_record, without};
use crate::store::{contents_of, VecStore};

verus! {

/// How many tasks a listing returns, from the start of the store.
pub const TASKS_PAGE: usize = 10;

/// A task as stored: its identifier and its content.
pub struct TaskData {
    pub id: usize,
    pub content: String,
}

/// The body of a request that creates a task.
pub struct NewTaskRequest {
    pub content: String,
}

/// A reply that carries only the identifier of a new task.
pub struct NewTaskResponse {
    pub id: usize,
}

/// A task as it is returned to a client.
pub struct TaskResponse {
    pub id: usize,
    pub content: String,
}

/// Why a request could not be answered with a task.
#[derive(Debug, Clone, Copy, PartialEq, Eq)]
pub enum ErrorStatus {
    /// No live task has the requested identifier.
    NotFound,
    /// The store failed.
    InternalServerError,
}

impl ErrorStatus {
    /// The HTTP status code of this outcome.
    pub fn code(&self) -> (r: u16)
        ensures
            r == match self {
                ErrorStatus::NotFound => 404u16,
                ErrorStatus::InternalServerError => 500u16,
            },
    {
        match self {
            ErrorStatus::NotFound => 404,
            ErrorStatus::InternalServerError => 500,
        }
    }
}

/// The identifiers and contents of a list of task replies.
pub open spec fn responses_view(v: Seq<TaskResponse>) -> Seq<(usize, Seq<char>)> {
    v.map_values(|t: TaskResponse| (t.id, t.content@))
}

/// Creates a task with the requested content and replies with it; a store
/// failure (identifiers exhausted) becomes an internal error.
pub fn create_task(store: &mut VecStore, payload: NewTaskRequest) -> (r: Result<TaskResponse, ErrorStatus>)
    ensures
        match r {
            Ok(t) => t.id == next_id(old(store)@) && t.content@ == payload.content@
                && final(store)@ == with_record(old(store)@, payload.content@),
            Err(e) => e == ErrorStatus::InternalServerError && next_id(old(store)@) > usize::MAX
                && final(store)@ == old(store)@,
        },
{
    let content = payload.content;
    match store.create_record(content.clone()) {
        Ok(id) => Ok(TaskResponse { id, content }),
        Err(_) => Err(ErrorStatus::InternalServerError),
    }
}

/// Replies with the task of identifier `id`, or not-found where none is live.
pub fn get_task(store: &VecStore, id: usize) -> (r: Result<TaskResponse, ErrorStatus>)
    ensures
        match lookup(store@, id) {
            Some(c) => r.is_ok() && r.unwrap().id == id && r.unwrap().content@ == c,
            None => r == Err::<TaskResponse, ErrorStatus>(ErrorStatus::NotFound),
        },
{
    match store.get_record(id) {
        Ok(Some(content)) => Ok(TaskResponse { id, content }),
        Ok(None) => Err(ErrorStatus::NotFound),
        Err(_) => Err(ErrorStatus::InternalServerError),
    }
}

/// Completes (removes) the task of identifier `id` and replies with its last
/// content, or not-found where none is live.
pub fn complete_task(store: &mut VecStore, id: usize) -> (r: Result<TaskResponse, ErrorStatus>)
    ensures
        final(store)@ == without(old(store)@, id),
        match lookup(old(store)@, id) {
            Some(c) => r.is_ok() && r.unwrap().id == id && r.unwrap().content@ == c,
            None => r == Err::<TaskResponse, ErrorStatus>(ErrorStatus::NotFound),
        },
{
    match store.delete_record(id) {
        Ok(Some(content)) => Ok(TaskResponse { id, content }),
        Ok(None) => Err(ErrorStatus::NotFound),
        Err(_) => Err(ErrorStatus::InternalServerError),
    }
}

/// Replies with the first tasks of the store, in store order.
pub fn get_tasks(store: &VecStore) -> (r: Result<Vec<TaskResponse>, ErrorStatus>)
    ensures
        match r {
            Ok(v) => responses_view(v@) == page(store@, 0, TASKS_PAGE as int),
            Err(_) => false,
        },
{
    let records = match store.get_records(0, TASKS_PAGE) {
        Ok(records) => records,
        Err(_) => return Err(ErrorStatus::InternalServerError),
    };
    let mut out: Vec<TaskResponse> = Vec::new();
    let n = records.len();
    let mut i: usize = 0;
    while i < n
        invariant
            n == records@.len(),
            i <= n,
            responses_view(out@) =~= contents_of(records@).subrange(0, i as int),
        decreases n - i,
    {
        let ghost prev = out@;
        out.push(TaskResponse { id: records[i].0, content: records[i].1.clone() });
        proof {
            assert(responses_view(out@) =~= responses_view(prev).push(contents_of(records@)[i as int]));
            assert(contents_of(records@).subrange(0, i + 1) =~= contents_of(records@).subrange(0, i as int).push(contents_of(records@)[i as int]));
        }
        i += 1;
    }
    assert(contents_of(records@).subrange(0, n as int) =~= contents_of(records@));
    Ok(out)
}

} // verus!
