use vstd::prelude::*;

use crate::records::ids_ascending;
use crate::store::VecStore;

verus! {

/// Cross-origin policy of the service: which headers every response carries.
pub struct CORS;

impl CORS {
    /// The name under which the policy is installed.
    pub fn name(&self) -> (r: &'static str)
        ensures
            r@ == "Add CORS headers to responses"@,
    {
        "Add CORS headers to responses"
    }

    /// The headers added to every response, as `(name, value)` pairs:
    /// any origin, the common methods, any header, credentials allowed.
    pub fn response_headers(&self) -> (r: Vec<(&'static str, &'static str)>)
        ensures
            r@.len() == 4,
            r@[0].0@ == "Access-Control-Allow-Origin"@,
            r@[0].1@ == "*"@,
            r@[1].0@ == "Access-Control-Allow-Methods"@,
            r@[1].1@ == "POST, GET, PATCH, OPTIONS, PUT"@,
            r@[2].0@ == "Access-Control-Allow-Headers"@,
            r@[2].1@ == "*"@,
            r@[3].0@ == "Access-Control-Allow-Credentials"@,
            r@[3].1@ == "true"@,
    {
        let mut r: Vec<(&'static str, &'static str)> = Vec::new();
        r.push(("Access-Control-Allow-Origin", "*"));
        r.push(("Access-Control-Allow-Methods", "POST, GET, PATCH, OPTIONS, PUT"));
        r.push(("Access-Control-Allow-Headers", "*"));
        r.push(("Access-Control-Allow-Credentials", "true"));
        r
    }
}

/// The endpoints the service answers.
#[derive(Debug, Clone, Copy, PartialEq, Eq)]
pub enum Route {
    /// `OPTIONS` on any path: an empty reply.
    AllOptions,
    /// `POST /task`: create a task.
    CreateTask,
    /// `GET /task/{id}`: read a task.
    GetTask,
    /// `GET /tasks`: list the first tasks.
    GetTasks,
    /// `PUT /task/{id}/complete`: remove a task.
    CompleteTask,
}

/// Everything the service is started with: its single store, its
/// cross-origin policy and the endpoints it mounts.
pub struct Service {
    pub store: VecStore,
    pub cors: CORS,
    pub routes: Vec<Route>,
}

/// Answers a preflight request. The reply has an empty body; the headers
/// come from the cross-origin policy.
pub fn all_options() {
}

/// The service as it starts: an empty store, the cross-origin policy, and
/// every endpoint mounted.
pub fn rocket() -> (r: Service)
    ensures
        r.store@.len() == 0,
        ids_ascending(r.store@),
        r.routes@ == seq![Route::AllOptions, Route::CreateTask, Route::GetTask, Route::GetTasks, Route::CompleteTask],
{
    let mut routes: Vec<Route> = Vec::new();
    routes.push(Route::AllOptions);
    routes.push(Route::CreateTask);
    routes.push(Route::GetTask);
    routes.push(Route::GetTasks);
    routes.push(Route::CompleteTask);
    assert(routes@ =~= seq![Route::AllOptions, Route::CreateTask, Route::GetTask, Route::GetTasks, Route::CompleteTask]);
    Service { store: VecStore::new(), cors: CORS, routes }
}

} // verus!
