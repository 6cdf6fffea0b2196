use task_store::{
    all_options, complete_task, create_task, get_task, get_tasks, rocket, ErrorStatus,
    NewTaskRequest, RecordStore, Route, VecStore, CORS, TASKS_PAGE,
};

fn request(c: &str) -> NewTaskRequest {
    NewTaskRequest { content: c.to_string() }
}

#[test]
fn create_then_get_task() {
    let mut store = VecStore::new();
    let t = create_task(&mut store, request("buy milk")).unwrap();
    assert_eq!(t.id, 0);
    assert_eq!(t.content, "buy milk");
    let t = create_task(&mut store, request("walk")).unwrap();
    assert_eq!(t.id, 1);
    let g = get_task(&store, 0).unwrap();
    assert_eq!(g.id, 0);
    assert_eq!(g.content, "buy milk");
}

#[test]
fn get_missing_task_is_not_found() {
    let store = VecStore::new();
    assert_eq!(get_task(&store, 3).err(), Some(ErrorStatus::NotFound));
}

#[test]
fn complete_task_removes_it() {
    let mut store = VecStore::new();
    create_task(&mut store, request("a")).unwrap();
    create_task(&mut store, request("b")).unwrap();
    let t = complete_task(&mut store, 0).unwrap();
    assert_eq!(t.id, 0);
    assert_eq!(t.content, "a");
    assert_eq!(complete_task(&mut store, 0).err(), Some(ErrorStatus::NotFound));
    assert_eq!(get_task(&store, 0).err(), Some(ErrorStatus::NotFound));
    assert_eq!(get_task(&store, 1).unwrap().content, "b");
}

#[test]
fn get_tasks_lists_first_page() {
    let mut store = VecStore::new();
    assert!(get_tasks(&store).unwrap().is_empty());
    for i in 0..12 {
        create_task(&mut store, request(&format!("t{}", i))).unwrap();
    }
    complete_task(&mut store, 2).unwrap();
    let list = get_tasks(&store).unwrap();
    assert_eq!(TASKS_PAGE, 10);
    assert_eq!(list.len(), 10);
    let ids: Vec<usize> = list.iter().map(|t| t.id).collect();
    assert_eq!(ids, vec![0, 1, 3, 4, 5, 6, 7, 8, 9, 10]);
    assert_eq!(list[2].content, "t3");
}

#[test]
fn status_codes() {
    assert_eq!(ErrorStatus::NotFound.code(), 404);
    assert_eq!(ErrorStatus::InternalServerError.code(), 500);
}

#[test]
fn cors_headers() {
    let cors = CORS;
    assert_eq!(cors.name(), "Add CORS headers to responses");
    assert_eq!(
        cors.response_headers(),
        vec![
            ("Access-Control-Allow-Origin", "*"),
            ("Access-Control-Allow-Methods", "POST, GET, PATCH, OPTIONS, PUT"),
            ("Access-Control-Allow-Headers", "*"),
            ("Access-Control-Allow-Credentials", "true"),
        ]
    );
}

#[test]
fn service_starts_empty_with_all_routes() {
    all_options();
    let service = rocket();
    assert_eq!(service.store.get_records(0, 10), Ok(vec![]));
    assert_eq!(
        service.routes,
        vec![Route::AllOptions, Route::CreateTask, Route::GetTask, Route::GetTasks, Route::CompleteTask]
    );
}
