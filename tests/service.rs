use todoapp::exposition::encode_metrics;
use todoapp::handlers::{
    create_response, delete_response, list_response, metrics_response, update_response, Body,
    EncodingError, Response,
};
use todoapp::metrics::{
    Counters, TODO_COMPLETED_HELP, TODO_COMPLETED_NAME, TODO_CREATED_HELP, TODO_CREATED_NAME,
};
use todoapp::service::TodoService;
use todoapp::store::{StorageError, TodoTable};
use todoapp::todo::{CreateTodo, TodoItem, UpdateTodo};

fn create(s: &mut TodoService, title: &str) -> TodoItem {
    let r = s.create_todo(CreateTodo { title: title.to_string() });
    assert_eq!(r.status, 200);
    match r.body {
        Body::Item(item) => item,
        _ => panic!("create returned no item"),
    }
}

fn listed(s: &TodoService) -> Vec<(i32, String, bool)> {
    let r = s.get_todos();
    assert_eq!(r.status, 200);
    match r.body {
        Body::Items(items) => items.into_iter().map(|t| (t.id, t.title, t.completed)).collect(),
        _ => panic!("list returned no items"),
    }
}

fn is_empty_ok(r: &Response) -> bool {
    r.status == 200 && matches!(r.body, Body::Empty)
}

fn is_server_error(r: &Response) -> bool {
    r.status == 500 && matches!(r.body, Body::Empty)
}

#[test]
fn create_buy_milk() {
    let mut s = TodoService::new();
    let before = s.counters().created_total;
    let item = create(&mut s, "Buy milk");
    assert_eq!(item.title, "Buy milk");
    assert!(!item.completed);
    assert!(item.id > 0);
    assert_eq!(s.counters().created_total, before + 1);
    assert_eq!(s.counters().completed_total, 0);
}

#[test]
fn list_after_two_creates() {
    let mut s = TodoService::new();
    let a = create(&mut s, "Buy milk");
    let b = create(&mut s, "Walk the dog");
    assert_ne!(a.id, b.id);
    let rows = listed(&s);
    assert_eq!(rows.len(), 2);
    assert!(rows.contains(&(a.id, "Buy milk".to_string(), false)));
    assert!(rows.contains(&(b.id, "Walk the dog".to_string(), false)));
}

#[test]
fn empty_list() {
    let s = TodoService::new();
    assert!(listed(&s).is_empty());
}

#[test]
fn update_completed_twice_counts_twice() {
    let mut s = TodoService::new();
    let a = create(&mut s, "Buy milk");
    let r = s.update_todo(a.id, UpdateTodo { completed: true });
    assert!(is_empty_ok(&r));
    assert_eq!(s.counters().completed_total, 1);
    assert_eq!(listed(&s), vec![(a.id, "Buy milk".to_string(), true)]);
    let r = s.update_todo(a.id, UpdateTodo { completed: true });
    assert!(is_empty_ok(&r));
    assert_eq!(s.counters().completed_total, 2);
    assert_eq!(listed(&s), vec![(a.id, "Buy milk".to_string(), true)]);
}

#[test]
fn update_to_false_is_not_counted() {
    let mut s = TodoService::new();
    let a = create(&mut s, "Buy milk");
    s.update_todo(a.id, UpdateTodo { completed: true });
    let r = s.update_todo(a.id, UpdateTodo { completed: false });
    assert!(is_empty_ok(&r));
    assert_eq!(s.counters().completed_total, 1);
    assert_eq!(listed(&s), vec![(a.id, "Buy milk".to_string(), false)]);
}

#[test]
fn update_missing_id_returns_ok() {
    let mut s = TodoService::new();
    let a = create(&mut s, "Buy milk");
    let r = s.update_todo(a.id + 100, UpdateTodo { completed: true });
    assert!(is_empty_ok(&r));
    assert_eq!(listed(&s), vec![(a.id, "Buy milk".to_string(), false)]);
    assert_eq!(s.counters().completed_total, 1);
}

#[test]
fn delete_existing_then_missing() {
    let mut s = TodoService::new();
    let a = create(&mut s, "Buy milk");
    let b = create(&mut s, "Walk the dog");
    let r = s.delete_todo(a.id);
    assert!(is_empty_ok(&r));
    assert_eq!(listed(&s), vec![(b.id, "Walk the dog".to_string(), false)]);
    let r = s.delete_todo(a.id);
    assert!(is_empty_ok(&r));
    let r = s.delete_todo(9999);
    assert!(is_empty_ok(&r));
    assert_eq!(listed(&s), vec![(b.id, "Walk the dog".to_string(), false)]);
}

#[test]
fn ids_are_not_reused_after_delete() {
    let mut s = TodoService::new();
    let a = create(&mut s, "one");
    s.delete_todo(a.id);
    let b = create(&mut s, "two");
    assert_ne!(a.id, b.id);
    assert_eq!(b.id, a.id + 1);
}

#[test]
fn table_assigns_ids_from_one() {
    let mut t = TodoTable::new();
    let a = t.insert("first".to_string()).unwrap();
    let b = t.insert("second".to_string()).unwrap();
    assert_eq!(a.id, 1);
    assert_eq!(b.id, 2);
    t.update_completed(2, true);
    t.delete(1);
    let rows: Vec<(i32, String, bool)> =
        t.list_all().into_iter().map(|x| (x.id, x.title, x.completed)).collect();
    assert_eq!(rows, vec![(2, "second".to_string(), true)]);
}

fn value_of(text: &str, name: &str) -> Option<u64> {
    text.lines()
        .filter(|l| !l.starts_with('#'))
        .find_map(|l| {
            let mut parts = l.split_whitespace();
            if parts.next() == Some(name) {
                parts.next().and_then(|v| v.parse::<u64>().ok())
            } else {
                None
            }
        })
}

fn metrics_text(s: &TodoService) -> String {
    let r = s.metrics();
    assert_eq!(r.status, 200);
    assert_eq!(r.body.content_type(), Some("text/plain; version=0.0.4"));
    match r.body {
        Body::Exposition(text) => text,
        _ => panic!("metrics returned no exposition"),
    }
}

#[test]
fn metrics_exposition_matches_counts() {
    let mut s = TodoService::new();
    let a = create(&mut s, "Buy milk");
    create(&mut s, "Walk the dog");
    create(&mut s, "Read");
    s.update_todo(a.id, UpdateTodo { completed: true });
    s.update_todo(a.id, UpdateTodo { completed: false });
    s.update_todo(a.id, UpdateTodo { completed: true });
    let text = metrics_text(&s);
    assert_eq!(value_of(&text, "todo_created_total"), Some(3));
    assert_eq!(value_of(&text, "todo_completed_total"), Some(2));
    assert_eq!(metrics_text(&s), text);
}

#[test]
fn metrics_exposition_at_start() {
    let text = metrics_text(&TodoService::new());
    assert!(text.contains("# TYPE todo_created_total counter"));
    assert_eq!(value_of(&text, "todo_created_total"), Some(0));
    assert_eq!(value_of(&text, "todo_completed_total"), Some(0));
}

#[test]
fn encode_metrics_exact_text() {
    let c = Counters { created_total: 12, completed_total: 9007199254740992 };
    let text = encode_metrics(&c).unwrap();
    let expected = format!(
        "# HELP {n1} {h1}\n# TYPE {n1} counter\n{n1} 12\n# HELP {n2} {h2}\n# TYPE {n2} counter\n{n2} 9007199254740992\n",
        n1 = TODO_CREATED_NAME,
        h1 = TODO_CREATED_HELP,
        n2 = TODO_COMPLETED_NAME,
        h2 = TODO_COMPLETED_HELP
    );
    assert_eq!(text, expected);
}

#[test]
fn metrics_encoding_error_is_opaque_500() {
    let r = metrics_response(Err(EncodingError));
    assert_eq!(r.status, 500);
    assert!(matches!(r.body, Body::Empty));
    assert_eq!(r.body.content_type(), None);
}

#[test]
fn metrics_response_carries_text() {
    let r = metrics_response(Ok("x 1\n".to_string()));
    assert_eq!(r.status, 200);
    assert!(matches!(r.body, Body::Exposition(ref t) if t == "x 1\n"));
}

#[test]
fn storage_errors_are_500() {
    assert!(is_server_error(&list_response(Err(StorageError::Unavailable))));
    assert!(is_server_error(&delete_response(Err(StorageError::Unavailable))));
    let mut c = Counters::new();
    assert!(is_server_error(&create_response(
        &mut c,
        "x".to_string(),
        Err(StorageError::IdsExhausted)
    )));
    assert!(is_server_error(&update_response(&mut c, true, Err(StorageError::Unavailable))));
    assert_eq!(c, Counters::new());
}

#[test]
fn store_outcomes_give_responses() {
    let mut c = Counters::new();
    let r = create_response(&mut c, "Buy milk".to_string(), Ok(7));
    assert_eq!(r.status, 200);
    assert!(matches!(r.body, Body::Item(ref t) if t.id == 7 && t.title == "Buy milk" && !t.completed));
    assert_eq!(c.created_total, 1);
    assert!(is_empty_ok(&update_response(&mut c, true, Ok(()))));
    assert!(is_empty_ok(&update_response(&mut c, false, Ok(()))));
    assert_eq!(c.completed_total, 1);
    assert!(is_empty_ok(&delete_response(Ok(()))));
    let items = vec![TodoItem { id: 3, title: "a".to_string(), completed: true }];
    let r = list_response(Ok(items));
    assert_eq!(r.status, 200);
    assert!(matches!(r.body, Body::Items(ref v) if v.len() == 1 && v[0].id == 3 && v[0].completed));
}

#[test]
fn counters_stop_at_the_largest_value() {
    let mut c = Counters { created_total: u64::MAX, completed_total: u64::MAX - 1 };
    c.record_created();
    c.record_update(true);
    c.record_update(true);
    assert_eq!(c.created_total, u64::MAX);
    assert_eq!(c.completed_total, u64::MAX);
}
