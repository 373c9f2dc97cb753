use todo_client::api::{Method, Payload, Reply};
use todo_client::screens::todo::{TodoResponse, TodoScreen};
use todo_client::session::Session;

fn session() -> Session {
    let mut s = Session::new();
    s.set_token("abc".to_string());
    s
}

fn item(id: i64, title: &str, completed: bool) -> TodoResponse {
    TodoResponse {
        id,
        title: title.to_string(),
        description: None,
        completed,
        created_at: "2024-01-01T00:00:00".to_string(),
        updated_at: "2024-01-01T00:00:00".to_string(),
    }
}

fn loaded(list: Vec<TodoResponse>) -> TodoScreen {
    let mut s = TodoScreen::new("http://127.0.0.1:8080".to_string());
    s.fetch(&session());
    s.on_fetched(Reply::Answered(200, Some(list)));
    s
}

fn assert_fetch_all(r: &todo_client::api::ApiRequest) {
    assert_eq!(r.method, Method::Get);
    assert_eq!(r.url, "http://127.0.0.1:8080/api/v1/todo");
    assert_eq!(r.authorization.as_deref(), Some("Bearer abc"));
    assert!(matches!(r.body, Payload::Empty));
}

#[test]
fn fetch_replaces_list_in_server_order() {
    let mut s = TodoScreen::new("http://127.0.0.1:8080".to_string());
    let r = s.fetch(&session());
    assert_fetch_all(&r);
    assert!(s.is_loading());
    s.on_fetched(Reply::Answered(200, Some(vec![item(3, "c", false), item(1, "a", true)])));
    assert!(!s.is_loading());
    assert_eq!(s.todos, vec![item(3, "c", false), item(1, "a", true)]);
}

#[test]
fn fetch_failure_empties_list() {
    let mut s = loaded(vec![item(1, "a", false)]);
    s.fetch(&session());
    s.on_fetched(Reply::Unreachable);
    assert!(s.todos.is_empty());
    let mut s = loaded(vec![item(1, "a", false)]);
    s.fetch(&session());
    s.on_fetched(Reply::Answered(200, None));
    assert!(s.todos.is_empty());
    let mut s = loaded(vec![item(1, "a", false)]);
    s.fetch(&session());
    s.on_fetched(Reply::Answered(500, Some(vec![item(9, "x", false)])));
    assert!(s.todos.is_empty());
    assert!(!s.is_loading());
}

#[test]
fn no_token_sends_no_authorization() {
    let mut s = TodoScreen::new("http://127.0.0.1:8080".to_string());
    let r = s.fetch(&Session::new());
    assert_eq!(r.authorization, None);
}

#[test]
fn create_then_fetch_shows_server_list() {
    let mut s = loaded(vec![item(1, "a", false)]);
    s.set_input("  buy milk ".to_string());
    assert!(s.can_add());
    let r = s.submit(&session()).expect("request");
    assert_eq!(r.method, Method::Post);
    assert_eq!(r.url, "http://127.0.0.1:8080/api/v1/todo");
    match &r.body {
        Payload::NewTodo(t) => {
            assert_eq!(t.title, "buy milk");
            assert!(!t.completed);
        }
        other => panic!("unexpected body {:?}", other),
    }
    assert!(s.is_loading());
    let next = s.on_created(Reply::Answered(201, Some(())), &session()).expect("fetch");
    assert_fetch_all(&next);
    assert_eq!(s.input, "");
    let server = vec![item(2, "buy milk", false), item(1, "a", false)];
    s.on_fetched(Reply::Answered(200, Some(server.clone())));
    assert_eq!(s.todos, server);
    assert!(!s.is_loading());
}

#[test]
fn create_failure_keeps_draft() {
    let mut s = loaded(vec![]);
    s.set_input("task".to_string());
    s.submit(&session()).expect("request");
    assert!(s.on_created(Reply::Answered(200, Some(())), &session()).is_none());
    assert_eq!(s.input, "task");
    assert!(!s.is_loading());
}

#[test]
fn blank_draft_is_not_sent() {
    let mut s = loaded(vec![]);
    s.set_input(" \n ".to_string());
    assert!(!s.can_add());
    assert!(s.submit(&session()).is_none());
    assert!(!s.is_loading());
}

#[test]
fn toggle_reads_then_writes_inverted_status() {
    let mut s = loaded(vec![item(5, "buy milk", false)]);
    let get = s.toggle(5, &session());
    assert_eq!(get.method, Method::Get);
    assert_eq!(get.url, "http://127.0.0.1:8080/api/v1/todo/5");
    assert_eq!(get.authorization.as_deref(), Some("Bearer abc"));
    let put = s
        .on_toggle_read(5, Reply::Answered(200, Some(item(5, "buy milk", false))), &session())
        .expect("put");
    assert_eq!(put.method, Method::Put);
    assert_eq!(put.url, "http://127.0.0.1:8080/api/v1/todo");
    match &put.body {
        Payload::Update(u) => {
            assert_eq!(u.id, Some(5));
            assert_eq!(u.title.as_deref(), Some("buy milk"));
            assert_eq!(u.completed, Some(true));
            assert_eq!(u.description, None);
        }
        other => panic!("unexpected body {:?}", other),
    }
    let next = s.on_updated(Reply::Answered(200, Some(())), &session()).expect("fetch");
    assert_fetch_all(&next);
    assert!(s.is_loading());
}

#[test]
fn toggle_read_failure_aborts() {
    let mut s = loaded(vec![item(5, "a", true)]);
    s.toggle(5, &session());
    assert!(s.on_toggle_read(5, Reply::Answered(404, None), &session()).is_none());
    assert!(!s.is_loading());
    s.toggle(5, &session());
    let put = s.on_toggle_read(5, Reply::Answered(200, Some(item(5, "a", true))), &session()).expect("put");
    match &put.body {
        Payload::Update(u) => assert_eq!(u.completed, Some(false)),
        other => panic!("unexpected body {:?}", other),
    }
    assert!(s.on_updated(Reply::Answered(500, Some(())), &session()).is_none());
    assert!(!s.is_loading());
}

#[test]
fn delete_failure_leaves_list_and_clears_loading() {
    let list = vec![item(7, "x", false), item(8, "y", true)];
    let mut s = loaded(list.clone());
    let del = s.delete(7, &session());
    assert_eq!(del.method, Method::Delete);
    assert_eq!(del.url, "http://127.0.0.1:8080/api/v1/todo/7");
    assert!(s.is_loading());
    assert!(s.on_deleted(Reply::Answered(500, Some(())), &session()).is_none());
    assert_eq!(s.todos, list);
    assert!(!s.is_loading());
}

#[test]
fn delete_success_fetches() {
    let mut s = loaded(vec![item(7, "x", false)]);
    s.delete(7, &session());
    let next = s.on_deleted(Reply::Answered(200, Some(())), &session()).expect("fetch");
    assert_fetch_all(&next);
    s.on_fetched(Reply::Answered(200, Some(vec![])));
    assert!(s.todos.is_empty());
}

#[test]
fn second_edit_replaces_first_without_request() {
    let mut s = loaded(vec![item(1, "a", false), item(2, "b", true)]);
    s.begin_edit(1, "a".to_string());
    s.set_edit_text("a changed".to_string());
    s.begin_edit(2, "b".to_string());
    assert!(s.is_editing(2));
    assert!(!s.is_editing(1));
    assert_eq!(s.edit_text, "b");
    assert!(!s.is_loading());
}

#[test]
fn save_edit_writes_trimmed_title_with_listed_completion() {
    let mut s = loaded(vec![item(1, "a", false), item(2, "b", true)]);
    s.begin_edit(2, "b".to_string());
    s.set_edit_text("  new b ".to_string());
    let put = s.save_edit(&session()).expect("put");
    match &put.body {
        Payload::Update(u) => {
            assert_eq!(u.id, Some(2));
            assert_eq!(u.title.as_deref(), Some("new b"));
            assert_eq!(u.completed, Some(true));
        }
        other => panic!("unexpected body {:?}", other),
    }
    let next = s.on_edit_saved(Reply::Answered(200, Some(())), &session()).expect("fetch");
    assert_fetch_all(&next);
    assert_eq!(s.edit_id, None);
}

#[test]
fn save_edit_of_unlisted_todo_sends_not_completed() {
    let mut s = loaded(vec![]);
    s.begin_edit(9, "z".to_string());
    let put = s.save_edit(&session()).expect("put");
    match &put.body {
        Payload::Update(u) => assert_eq!(u.completed, Some(false)),
        other => panic!("unexpected body {:?}", other),
    }
    assert!(s.on_edit_saved(Reply::Unreachable, &session()).is_none());
    assert_eq!(s.edit_id, Some(9));
}

#[test]
fn blank_edit_or_no_edit_sends_nothing() {
    let mut s = loaded(vec![item(1, "a", false)]);
    assert!(s.save_edit(&session()).is_none());
    s.begin_edit(1, "a".to_string());
    s.set_edit_text("   ".to_string());
    assert!(s.save_edit(&session()).is_none());
    s.cancel_edit();
    assert_eq!(s.edit_id, None);
    assert!(!s.is_loading());
}

#[test]
fn completed_of_reads_first_match() {
    let s = loaded(vec![item(4, "a", true), item(4, "b", false)]);
    assert!(s.completed_of(4));
    assert!(!s.completed_of(5));
}

#[test]
fn negative_id_in_path() {
    let mut s = loaded(vec![]);
    let r = s.delete(-12, &session());
    assert_eq!(r.url, "http://127.0.0.1:8080/api/v1/todo/-12");
}
