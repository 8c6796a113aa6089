//! The todo record and the payload a client supplies for it.

use vstd::prelude::*;

verus! {

/// What a client supplies when creating or replacing a record: everything but the identifier.
#[derive(Clone, Debug)]
pub struct InsertTodo {
    pub done: bool,
    pub val: String,
}

/// The mathematical value of an [`InsertTodo`].
pub struct InsertTodoView {
    pub done: bool,
    pub val: Seq<char>,
}

impl View for InsertTodo {
    type V = InsertTodoView;

    open spec fn view(&self) -> InsertTodoView {
        InsertTodoView { done: self.done, val: self.val@ }
    }
}

/// One todo record: an identifier assigned by the store, and the client's payload.
#[derive(Clone, PartialEq, Debug)]
pub struct Todo {
    pub id: u64,
    pub done: bool,
    pub val: String,
}

/// The mathematical value of a [`Todo`].
pub struct TodoView {
    pub id: nat,
    pub done: bool,
    pub val: Seq<char>,
}

impl View for Todo {
    type V = TodoView;

    open spec fn view(&self) -> TodoView {
        TodoView { id: self.id as nat, done: self.done, val: self.val@ }
    }
}

/// The record that carries `payload` under the identifier `id`.
pub open spec fn record(id: nat, payload: InsertTodoView) -> TodoView {
    TodoView { id, done: payload.done, val: payload.val }
}

impl Todo {
    /// Builds the record that carries `insert_todo` under the identifier `id`.
    pub fn from_insert_todo(insert_todo: InsertTodo, id: u64) -> (todo: Self)
        ensures
            todo@ == record(id as nat, insert_todo@),
    {
        Todo { id, done: insert_todo.done, val: insert_todo.val }
    }
}

} // verus!
