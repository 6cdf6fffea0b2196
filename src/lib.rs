//! An in-memory task store: identifier assignment, lookup, removal, patching
//! and paging over an ordered sequence of `(identifier, content)` records,
//! together with the request handling logic of the task service built on it.

mod handler;
mod laws;
mod model;
mod records;
mod service;
mod store;

pub use handler::{
    complete_task, create_task, get_task, get_tasks, responses_view, ErrorStatus, NewTaskRequest,
    NewTaskResponse, TaskData, TaskResponse, TASKS_PAGE,
};
pub use laws::{lemma_absent, lemma_delete_once, lemma_get_after_create, lemma_page_shape, lemma_patch_then_get};
pub use model::{RecordStore, StoreError};
pub use records::{has_id, ids_ascending, index_of, lookup, next_id, page, replaced, with_record, without};
pub use service::{all_options, rocket, Route, Service, CORS};
pub use store::{content_view, contents_of, VecStore};
