use todo_api::handler::{
    create_todo_handler, delete_todo_handler, findall_todo_handler, get_by_id_todo_handler,
    health_checker_handler, page_window, root_handler, update_todo_handler, ApiResponse, Body,
    EnvelopeStatus,
};
use todo_api::model::{merge_update, FilterOptions, TodoListDTO, TodoModel, UpdateTodoDto};
use todo_api::repository::{delete_succeeded, StoreFailure, TodoRepository};
use todo_api::service::{
    create_outcome, delete_outcome, get_outcome, list_outcome, update_outcome, TodoError,
    TodoService,
};

fn service() -> TodoService {
    TodoService::new(TodoRepository::new())
}

fn new_todo(title: &str, content: &str, category: Option<&str>) -> TodoListDTO {
    TodoListDTO {
        title: title.to_string(),
        content: content.to_string(),
        category: category.map(|c| c.to_string()),
    }
}

fn no_update() -> UpdateTodoDto {
    UpdateTodoDto { title: None, content: None, category: None, published: None }
}

fn todo_of(r: ApiResponse) -> TodoModel {
    match r.body {
        Body::Todo(t) | Body::Note(t) => t,
        other => panic!("expected a todo, got {:?}", other),
    }
}

fn message_of(r: &ApiResponse) -> (EnvelopeStatus, String) {
    match &r.body {
        Body::Message(s, m) => (*s, m.clone()),
        other => panic!("expected a message, got {:?}", other),
    }
}

fn list_of(r: ApiResponse) -> Vec<TodoModel> {
    match r.body {
        Body::List(v) => v,
        other => panic!("expected a list, got {:?}", other),
    }
}

#[test]
fn create_same_title_twice_conflicts() {
    let mut s = service();
    let first = create_todo_handler(&mut s, new_todo("A", "B", None));
    assert_eq!(first.status, 201);
    let second = create_todo_handler(&mut s, new_todo("A", "other", Some("x")));
    assert_eq!(second.status, 409);
    assert_eq!(
        message_of(&second),
        (EnvelopeStatus::Fail, "Todo with that title already exists".to_string())
    );
    let all = list_of(findall_todo_handler(&mut s, FilterOptions { page: None, limit: None }));
    assert_eq!(all.len(), 1);
    assert_eq!(all[0].content, "B");
}

#[test]
fn create_then_get_applies_defaults() {
    let mut s = service();
    let created = todo_of(create_todo_handler(&mut s, new_todo("A", "B", None)));
    let got = get_by_id_todo_handler(&mut s, created.id);
    assert_eq!(got.status, 200);
    let t = todo_of(got);
    assert_eq!(t.id, created.id);
    assert_eq!(t.title, "A");
    assert_eq!(t.content, "B");
    assert_eq!(t.category, "");
    assert!(!t.published);
    assert_eq!(t.created_at, t.updated_at);
}

#[test]
fn create_keeps_given_category() {
    let mut s = service();
    let t = todo_of(create_todo_handler(&mut s, new_todo("A", "B", Some("work"))));
    assert_eq!(t.category, "work");
}

#[test]
fn update_published_keeps_title() {
    let mut s = service();
    let created = todo_of(create_todo_handler(&mut s, new_todo("A", "B", None)));
    let upd = UpdateTodoDto { published: Some(true), ..no_update() };
    let r = update_todo_handler(&mut s, created.id, upd);
    assert_eq!(r.status, 200);
    assert!(matches!(r.body, Body::Note(_)));
    let t = todo_of(get_by_id_todo_handler(&mut s, created.id));
    assert!(t.published);
    assert_eq!(t.title, "A");
    assert_eq!(t.content, "B");
}

#[test]
fn list_of_empty_table_is_empty() {
    let mut s = service();
    let r = findall_todo_handler(&mut s, FilterOptions { page: None, limit: None });
    assert_eq!(r.status, 200);
    assert_eq!(list_of(r).len(), 0);
}

#[test]
fn list_windows_by_page_in_id_order() {
    let mut s = service();
    let mut ids = Vec::new();
    for k in 0..5 {
        let t = todo_of(create_todo_handler(&mut s, new_todo(&format!("t{}", k), "c", None)));
        ids.push(t.id);
    }
    let page2 = list_of(findall_todo_handler(&mut s, FilterOptions { page: Some(2), limit: Some(2) }));
    assert_eq!(page2.iter().map(|t| t.id).collect::<Vec<_>>(), vec![ids[2], ids[3]]);
    let page3 = list_of(findall_todo_handler(&mut s, FilterOptions { page: Some(3), limit: Some(2) }));
    assert_eq!(page3.iter().map(|t| t.id).collect::<Vec<_>>(), vec![ids[4]]);
    let page4 = list_of(findall_todo_handler(&mut s, FilterOptions { page: Some(4), limit: Some(2) }));
    assert!(page4.is_empty());
    let all = list_of(findall_todo_handler(&mut s, FilterOptions { page: None, limit: None }));
    assert_eq!(all.iter().map(|t| t.id).collect::<Vec<_>>(), ids);
    assert!(ids.windows(2).all(|w| w[0] < w[1]));
}

#[test]
fn list_with_page_zero_is_rejected() {
    let mut s = service();
    let r = findall_todo_handler(&mut s, FilterOptions { page: Some(0), limit: Some(3) });
    assert_eq!(r.status, 400);
    assert_eq!(message_of(&r).0, EnvelopeStatus::Fail);
}

#[test]
fn page_window_defaults_and_offsets() {
    assert_eq!(page_window(&FilterOptions { page: None, limit: None }), Some((10, 0)));
    assert_eq!(page_window(&FilterOptions { page: Some(3), limit: Some(5) }), Some((5, 10)));
    assert_eq!(page_window(&FilterOptions { page: Some(2), limit: None }), Some((10, 10)));
    assert_eq!(page_window(&FilterOptions { page: Some(0), limit: None }), None);
    assert_eq!(page_window(&FilterOptions { page: Some(usize::MAX), limit: Some(2) }), None);
    assert_eq!(page_window(&FilterOptions { page: Some(usize::MAX), limit: Some(0) }), Some((0, 0)));
}

#[test]
fn get_missing_is_not_found_with_its_id() {
    let mut s = service();
    let r = get_by_id_todo_handler(&mut s, 42);
    assert_eq!(r.status, 404);
    assert_eq!(
        message_of(&r),
        (
            EnvelopeStatus::Fail,
            "Note with ID: 00000000-0000-0000-0000-00000000002a not found".to_string()
        )
    );
}

#[test]
fn update_without_fields_only_moves_updated_at() {
    let mut s = service();
    let created = todo_of(create_todo_handler(&mut s, new_todo("A", "B", Some("c"))));
    let updated = todo_of(update_todo_handler(&mut s, created.id, no_update()));
    assert_eq!(updated.id, created.id);
    assert_eq!(updated.title, created.title);
    assert_eq!(updated.content, created.content);
    assert_eq!(updated.category, created.category);
    assert_eq!(updated.published, created.published);
    assert_eq!(updated.created_at, created.created_at);
    assert!(updated.updated_at > created.updated_at);
}

#[test]
fn update_changes_only_given_fields() {
    let mut s = service();
    let a = todo_of(create_todo_handler(&mut s, new_todo("A", "B", Some("c"))));
    let b = todo_of(create_todo_handler(&mut s, new_todo("X", "Y", None)));
    let upd = UpdateTodoDto {
        title: Some("A2".to_string()),
        category: Some("d".to_string()),
        ..no_update()
    };
    let t = todo_of(update_todo_handler(&mut s, a.id, upd));
    assert_eq!(t.title, "A2");
    assert_eq!(t.content, "B");
    assert_eq!(t.category, "d");
    assert!(!t.published);
    let other = todo_of(get_by_id_todo_handler(&mut s, b.id));
    assert_eq!(other.title, "X");
    assert_eq!(other.updated_at, b.updated_at);
}

#[test]
fn update_to_taken_title_is_not_updated() {
    let mut s = service();
    let a = todo_of(create_todo_handler(&mut s, new_todo("A", "B", None)));
    todo_of(create_todo_handler(&mut s, new_todo("X", "Y", None)));
    let upd = UpdateTodoDto { title: Some("X".to_string()), ..no_update() };
    let r = update_todo_handler(&mut s, a.id, upd);
    assert_eq!(r.status, 500);
    assert_eq!(
        message_of(&r),
        (
            EnvelopeStatus::Error,
            "Note with ID: 00000000-0000-0000-0000-000000000000 not updated".to_string()
        )
    );
    assert_eq!(todo_of(get_by_id_todo_handler(&mut s, a.id)).title, "A");
}

#[test]
fn update_missing_is_not_updated() {
    let mut s = service();
    let r = update_todo_handler(&mut s, 7, no_update());
    assert_eq!(r.status, 500);
    assert_eq!(
        message_of(&r).1,
        "Note with ID: 00000000-0000-0000-0000-000000000007 not updated"
    );
}

#[test]
fn delete_then_get_is_not_found() {
    let mut s = service();
    let a = todo_of(create_todo_handler(&mut s, new_todo("A", "B", None)));
    let b = todo_of(create_todo_handler(&mut s, new_todo("C", "D", None)));
    let r = delete_todo_handler(&mut s, a.id);
    assert_eq!(r.status, 204);
    assert!(matches!(r.body, Body::Empty));
    assert_eq!(get_by_id_todo_handler(&mut s, a.id).status, 404);
    assert_eq!(get_by_id_todo_handler(&mut s, b.id).status, 200);
}

#[test]
fn delete_missing_is_not_found_and_changes_nothing() {
    let mut s = service();
    let a = todo_of(create_todo_handler(&mut s, new_todo("A", "B", None)));
    let r = delete_todo_handler(&mut s, 99);
    assert_eq!(r.status, 404);
    assert_eq!(
        message_of(&r),
        (
            EnvelopeStatus::Fail,
            "Note with ID: 00000000-0000-0000-0000-000000000063 not deleted".to_string()
        )
    );
    let all = list_of(findall_todo_handler(&mut s, FilterOptions { page: None, limit: None }));
    assert_eq!(all.len(), 1);
    assert_eq!(all[0].id, a.id);
}

#[test]
fn title_is_free_again_after_delete() {
    let mut s = service();
    let a = todo_of(create_todo_handler(&mut s, new_todo("A", "B", None)));
    assert_eq!(delete_todo_handler(&mut s, a.id).status, 204);
    let again = create_todo_handler(&mut s, new_todo("A", "B", None));
    assert_eq!(again.status, 201);
    assert!(todo_of(again).id > a.id);
}

#[test]
fn health_and_root() {
    let h = health_checker_handler();
    assert_eq!(h.status, 200);
    assert_eq!(
        message_of(&h),
        (
            EnvelopeStatus::Success,
            "Simple CRUD API with Rust, SQLX, Postgres,and Axum".to_string()
        )
    );
    let r = root_handler();
    assert_eq!(r.status, 200);
    assert!(matches!(r.body, Body::Text(ref t) if t == "Hello, World!"));
}

#[test]
fn envelope_status_texts() {
    assert_eq!(EnvelopeStatus::Success.as_text(), "success");
    assert_eq!(EnvelopeStatus::Fail.as_text(), "fail");
    assert_eq!(EnvelopeStatus::Error.as_text(), "error");
}

#[test]
fn store_failures_map_to_reasons() {
    assert_eq!(
        create_outcome(Err(StoreFailure::ConstraintViolation)).unwrap_err(),
        TodoError::TitleExists
    );
    assert_eq!(create_outcome(Err(StoreFailure::StoreUnavailable)).unwrap_err(), TodoError::Internal);
    assert_eq!(create_outcome(Err(StoreFailure::NotFound)).unwrap_err(), TodoError::Internal);
    assert_eq!(list_outcome(Err(StoreFailure::StoreUnavailable)).unwrap_err(), TodoError::Internal);
    assert_eq!(list_outcome(Ok(Vec::new())).unwrap().len(), 0);
    assert_eq!(get_outcome(5, Ok(Vec::new())).unwrap_err(), TodoError::NotFound(5));
    assert_eq!(get_outcome(5, Err(StoreFailure::StoreUnavailable)).unwrap_err(), TodoError::NotFound(5));
    assert_eq!(update_outcome(6, Err(StoreFailure::NotFound)).unwrap_err(), TodoError::NotUpdated(6));
    assert_eq!(delete_outcome(8, Ok(true)), None);
    assert_eq!(delete_outcome(8, Ok(false)), Some(TodoError::NotDeleted(8)));
    assert_eq!(delete_outcome(8, Err(StoreFailure::StoreUnavailable)), Some(TodoError::NotDeleted(8)));
}

#[test]
fn get_outcome_takes_the_single_row() {
    let row = TodoModel {
        id: 3,
        title: "t".to_string(),
        content: "c".to_string(),
        category: "".to_string(),
        published: true,
        created_at: 1,
        updated_at: 2,
    };
    let t = get_outcome(3, Ok(vec![row.duplicate()])).unwrap();
    assert_eq!(t.title, "t");
    assert!(t.published);
    let two = get_outcome(3, Ok(vec![row.duplicate(), row.duplicate()]));
    assert_eq!(two.unwrap_err(), TodoError::NotFound(3));
}

#[test]
fn reason_messages() {
    assert_eq!(TodoError::TitleExists.message(), "Todo with that title already exists");
    assert_eq!(TodoError::Internal.message(), "Internal-Server-Error");
    assert_eq!(
        TodoError::NotFound(0x67e5504410b1426f9247bb680e5fe0c8).message(),
        "Note with ID: 67e55044-10b1-426f-9247-bb680e5fe0c8 not found"
    );
}

#[test]
fn delete_counts_only_one_row() {
    assert!(!delete_succeeded(0));
    assert!(delete_succeeded(1));
    assert!(!delete_succeeded(2));
}

#[test]
fn merge_keeps_unset_fields_and_stamps() {
    let cur = TodoModel {
        id: 1,
        title: "t".to_string(),
        content: "c".to_string(),
        category: "k".to_string(),
        published: false,
        created_at: 4,
        updated_at: 5,
    };
    let m = merge_update(&cur, &UpdateTodoDto { content: Some("n".to_string()), published: Some(true), ..no_update() }, 9);
    assert_eq!(m.title, "t");
    assert_eq!(m.content, "n");
    assert_eq!(m.category, "k");
    assert!(m.published);
    assert_eq!(m.created_at, 4);
    assert_eq!(m.updated_at, 9);
}
