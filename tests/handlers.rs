use todo_service::handlers::{
    create_todo, delete_todo_by_id, get_all_todos, get_todo_by_id, update_todo_by_id, TodoCreate,
    TodoUpdate,
};
use todo_service::response::{HandlerResponse, ResponseBody, ResponseData, ResponseStatus};
use todo_service::todo::{find_todo, get_dummy_data, Todo};

fn single(r: &HandlerResponse) -> (u64, String, bool) {
    match &r.body {
        ResponseBody::Success(s) => {
            assert_eq!(s.status, ResponseStatus::Success);
            match &s.data {
                ResponseData::Single(t) => (t.id, t.title.clone(), t.completed),
                ResponseData::Multiple(_) => panic!("expected one record"),
            }
        }
        ResponseBody::Error(_) => panic!("expected a success envelope"),
    }
}

fn multiple(r: &HandlerResponse) -> Vec<(u64, String, bool)> {
    match &r.body {
        ResponseBody::Success(s) => {
            assert_eq!(s.status, ResponseStatus::Success);
            match &s.data {
                ResponseData::Multiple(v) => {
                    v.iter().map(|t| (t.id, t.title.clone(), t.completed)).collect()
                }
                ResponseData::Single(_) => panic!("expected a list"),
            }
        }
        ResponseBody::Error(_) => panic!("expected a success envelope"),
    }
}

fn error_message(r: &HandlerResponse) -> String {
    match &r.body {
        ResponseBody::Error(e) => {
            assert_eq!(e.status, ResponseStatus::Error);
            e.message.clone()
        }
        ResponseBody::Success(_) => panic!("expected an error envelope"),
    }
}

fn seed_rows() -> Vec<(u64, String, bool)> {
    vec![
        (1, "Belajar Rust".to_string(), false),
        (2, "Belajar Rust lagi".to_string(), false),
    ]
}

#[test]
fn seed_has_two_records_in_order() {
    let data = get_dummy_data();
    let rows: Vec<(u64, String, bool)> =
        data.iter().map(|t| (t.id, t.title.clone(), t.completed)).collect();
    assert_eq!(rows, seed_rows());
}

#[test]
fn find_todo_returns_first_match_or_none() {
    let data = vec![
        Todo { id: 5, title: "a".to_string(), completed: true },
        Todo { id: 5, title: "b".to_string(), completed: false },
    ];
    let t = find_todo(&data, 5).unwrap();
    assert_eq!(t.title, "a");
    assert!(t.completed);
    assert!(find_todo(&data, 6).is_none());
    assert!(find_todo(&Vec::new(), 1).is_none());
}

#[test]
fn list_returns_seed() {
    let r = get_all_todos();
    assert_eq!(r.code, 200);
    assert_eq!(multiple(&r), seed_rows());
}

#[test]
fn list_unchanged_after_other_requests() {
    let _ = update_todo_by_id(1, &TodoUpdate { title: Some("Changed".to_string()), completed: Some(true) });
    let _ = create_todo(&TodoCreate { title: Some("X".to_string()), completed: Some(true) });
    let _ = delete_todo_by_id(1);
    let _ = get_all_todos();
    let r = get_all_todos();
    assert_eq!(r.code, 200);
    assert_eq!(multiple(&r), seed_rows());
}

#[test]
fn get_existing_ids() {
    for id in [1u64, 2] {
        let r = get_todo_by_id(id);
        assert_eq!(r.code, 200);
        assert_eq!(single(&r), seed_rows()[(id - 1) as usize]);
    }
}

#[test]
fn get_missing_ids() {
    for id in [0u64, 3, 42, u64::MAX] {
        let r = get_todo_by_id(id);
        assert_eq!(r.code, 404);
        assert_eq!(error_message(&r), "Data not found");
    }
}

#[test]
fn update_title_only() {
    let r = update_todo_by_id(1, &TodoUpdate { title: Some("New Title".to_string()), completed: None });
    assert_eq!(r.code, 200);
    assert_eq!(single(&r), (1, "New Title".to_string(), false));
    let again = get_todo_by_id(1);
    assert_eq!(single(&again), (1, "Belajar Rust".to_string(), false));
}

#[test]
fn update_completed_only() {
    let r = update_todo_by_id(2, &TodoUpdate { title: None, completed: Some(true) });
    assert_eq!(r.code, 200);
    assert_eq!(single(&r), (2, "Belajar Rust lagi".to_string(), true));
}

#[test]
fn update_with_empty_body_keeps_record() {
    let r = update_todo_by_id(2, &TodoUpdate { title: None, completed: None });
    assert_eq!(r.code, 200);
    assert_eq!(single(&r), seed_rows()[1]);
}

#[test]
fn update_missing_id() {
    let r = update_todo_by_id(9, &TodoUpdate { title: Some("x".to_string()), completed: Some(true) });
    assert_eq!(r.code, 404);
    assert_eq!(error_message(&r), "Data not found");
}

#[test]
fn create_assigns_next_id() {
    let r = create_todo(&TodoCreate { title: Some("X".to_string()), completed: Some(true) });
    assert_eq!(r.code, 200);
    assert_eq!(single(&r), (3, "X".to_string(), true));
}

#[test]
fn create_with_empty_body_is_bad_request() {
    let r = create_todo(&TodoCreate { title: None, completed: None });
    assert_eq!(r.code, 400);
    assert_eq!(error_message(&r), "Missing required field");
}

#[test]
fn create_with_one_field_missing_is_bad_request() {
    let a = create_todo(&TodoCreate { title: Some("X".to_string()), completed: None });
    assert_eq!(a.code, 400);
    assert_eq!(error_message(&a), "Missing required field");
    let b = create_todo(&TodoCreate { title: None, completed: Some(false) });
    assert_eq!(b.code, 400);
    assert_eq!(error_message(&b), "Missing required field");
}

#[test]
fn delete_returns_record_and_keeps_list() {
    let r = delete_todo_by_id(2);
    assert_eq!(r.code, 200);
    assert_eq!(single(&r), seed_rows()[1]);
    let list = get_all_todos();
    assert_eq!(multiple(&list), seed_rows());
}

#[test]
fn delete_missing_id() {
    let r = delete_todo_by_id(3);
    assert_eq!(r.code, 404);
    assert_eq!(error_message(&r), "Data not found");
}

#[test]
fn repeated_calls_give_identical_replies() {
    for _ in 0..3 {
        assert_eq!(single(&get_todo_by_id(1)), seed_rows()[0]);
        assert_eq!(single(&delete_todo_by_id(1)), seed_rows()[0]);
        assert_eq!(
            single(&create_todo(&TodoCreate { title: Some("X".to_string()), completed: Some(true) })),
            (3, "X".to_string(), true)
        );
        assert_eq!(multiple(&get_all_todos()), seed_rows());
    }
}
