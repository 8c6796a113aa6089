use actix_todo::message::{APIError, TodoMessage, TodoReply};
use actix_todo::record::{InsertTodo, Todo};
use actix_todo::store::TodoStore;

fn insert(done: bool, val: &str) -> InsertTodo {
    InsertTodo { done, val: val.to_string() }
}

fn rec(id: u64, done: bool, val: &str) -> Todo {
    Todo { id, done, val: val.to_string() }
}

fn one(outcome: Result<TodoReply<'_>, APIError>) -> Todo {
    match outcome {
        Ok(TodoReply::Record(t)) => t.clone(),
        other => panic!("expected one record, got {:?}", other),
    }
}

fn all(outcome: Result<TodoReply<'_>, APIError>) -> Vec<Todo> {
    match outcome {
        Ok(TodoReply::Records(ts)) => ts.to_vec(),
        other => panic!("expected all records, got {:?}", other),
    }
}

#[test]
fn add_answers_with_the_created_record() {
    let mut store = TodoStore::default();
    assert_eq!(one(store.handle(TodoMessage::Add(insert(false, "a")))), rec(1, false, "a"));
    assert_eq!(one(store.handle(TodoMessage::Add(insert(true, "b")))), rec(2, true, "b"));
}

#[test]
fn read_all_answers_with_every_record_in_order() {
    let mut store = TodoStore::default();
    assert_eq!(all(store.handle(TodoMessage::ReadAll)), Vec::<Todo>::new());
    let _ = store.handle(TodoMessage::Add(insert(false, "a")));
    let _ = store.handle(TodoMessage::Add(insert(true, "b")));
    assert_eq!(
        all(store.handle(TodoMessage::ReadAll)),
        vec![rec(1, false, "a"), rec(2, true, "b")]
    );
}

#[test]
fn read_answers_with_the_record_or_not_found() {
    let mut store = TodoStore::default();
    let _ = store.handle(TodoMessage::Add(insert(false, "a")));
    assert_eq!(one(store.handle(TodoMessage::Read(1))), rec(1, false, "a"));
    assert!(matches!(store.handle(TodoMessage::Read(2)), Err(APIError::NotFound)));
}

#[test]
fn delete_answers_with_nothing_or_not_found() {
    let mut store = TodoStore::default();
    let _ = store.handle(TodoMessage::Add(insert(false, "a")));
    assert!(matches!(store.handle(TodoMessage::Delete(1)), Ok(TodoReply::Empty)));
    assert!(matches!(store.handle(TodoMessage::Delete(1)), Err(APIError::NotFound)));
    assert!(matches!(store.handle(TodoMessage::Delete(7)), Err(APIError::NotFound)));
    assert_eq!(all(store.handle(TodoMessage::ReadAll)), Vec::<Todo>::new());
}

#[test]
fn update_answers_with_the_new_record_or_not_found() {
    let mut store = TodoStore::default();
    let _ = store.handle(TodoMessage::Add(insert(false, "a")));
    assert_eq!(
        one(store.handle(TodoMessage::Update(insert(true, "A"), 1))),
        rec(1, true, "A")
    );
    assert!(matches!(
        store.handle(TodoMessage::Update(insert(true, "B"), 2)),
        Err(APIError::NotFound)
    ));
    assert_eq!(all(store.handle(TodoMessage::ReadAll)), vec![rec(1, true, "A")]);
}

#[test]
fn reads_leave_the_collection_alone() {
    let mut store = TodoStore::default();
    let _ = store.handle(TodoMessage::Add(insert(false, "a")));
    let _ = store.handle(TodoMessage::Read(1));
    let _ = store.handle(TodoMessage::Read(5));
    let _ = store.handle(TodoMessage::ReadAll);
    assert_eq!(store.read_all(), &[rec(1, false, "a")][..]);
}

#[test]
fn create_update_delete_scenario_by_messages() {
    let mut store = TodoStore::default();
    assert_eq!(one(store.handle(TodoMessage::Add(insert(false, "a")))).id, 1);
    assert_eq!(one(store.handle(TodoMessage::Add(insert(false, "b")))).id, 2);
    assert_eq!(
        one(store.handle(TodoMessage::Update(insert(true, "a"), 1))),
        rec(1, true, "a")
    );
    assert!(matches!(store.handle(TodoMessage::Delete(2)), Ok(TodoReply::Empty)));
    assert_eq!(all(store.handle(TodoMessage::ReadAll)), vec![rec(1, true, "a")]);
    assert!(matches!(store.handle(TodoMessage::Read(2)), Err(APIError::NotFound)));
}

#[test]
fn later_messages_see_what_earlier_ones_did() {
    let script = vec![
        TodoMessage::Add(insert(false, "a")),
        TodoMessage::Add(insert(false, "b")),
        TodoMessage::Delete(1),
        TodoMessage::Update(insert(true, "B"), 2),
        TodoMessage::Add(insert(false, "c")),
        TodoMessage::Read(3),
        TodoMessage::Delete(9),
    ];
    let mut whole = TodoStore::default();
    for msg in script.iter().cloned() {
        let _ = whole.handle(msg);
    }
    for cut in 0..=script.len() {
        let mut parts = TodoStore::default();
        for msg in script[..cut].iter().cloned() {
            let _ = parts.handle(msg);
        }
        for msg in script[cut..].iter().cloned() {
            let _ = parts.handle(msg);
        }
        assert_eq!(parts.read_all(), whole.read_all());
    }
    assert_eq!(whole.read_all(), &[rec(2, true, "B"), rec(3, false, "c")][..]);
}

#[test]
fn read_all_length_by_messages() {
    let script = vec![
        TodoMessage::Add(insert(false, "a")),
        TodoMessage::Delete(4),
        TodoMessage::Add(insert(false, "b")),
        TodoMessage::Add(insert(false, "c")),
        TodoMessage::Delete(2),
        TodoMessage::Delete(2),
        TodoMessage::Update(insert(true, "z"), 1),
        TodoMessage::Add(insert(false, "d")),
    ];
    let mut store = TodoStore::default();
    let mut created = 0usize;
    let mut removed = 0usize;
    for msg in script {
        let is_add = matches!(msg, TodoMessage::Add(_));
        let is_delete = matches!(msg, TodoMessage::Delete(_));
        let ok = store.handle(msg).is_ok();
        if is_add {
            created += 1;
        }
        if is_delete && ok {
            removed += 1;
        }
        assert_eq!(all(store.handle(TodoMessage::ReadAll)).len(), created - removed);
    }
    assert_eq!(created, 4);
    assert_eq!(removed, 1);
}
