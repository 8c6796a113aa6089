//! The operations a caller may ask of the store, as messages, and its replies.

use vstd::prelude::*;
use crate::laws::lemma_create_then_read;
use crate::model::{created, deleted, found, next_id, position, updated};
use crate::record::{record, InsertTodo, InsertTodoView, Todo, TodoView};
use crate::store::{views, TodoStore};

verus! {

/// Why an operation could not be answered.
#[derive(Debug, Clone, Copy, PartialEq, Eq, Structural)]
pub enum APIError {
    /// The operation names an identifier that no record has.
    NotFound,
    /// The request was malformed.
    BadRequest,
    /// The answer could not be encoded.
    InternalServerError,
}

/// One operation on the store.
#[derive(Clone, Debug)]
pub enum TodoMessage {
    /// Create a record from the payload.
    Add(InsertTodo),
    /// Remove the record with this identifier.
    Delete(u64),
    /// Read every record.
    ReadAll,
    /// Read the record with this identifier.
    Read(u64),
    /// Replace the payload of the record with this identifier.
    Update(InsertTodo, u64),
}

/// The mathematical value of a [`TodoMessage`].
pub enum TodoMessageView {
    Add(InsertTodoView),
    Delete(nat),
    ReadAll,
    Read(nat),
    Update(InsertTodoView, nat),
}

impl View for TodoMessage {
    type V = TodoMessageView;

    open spec fn view(&self) -> TodoMessageView {
        match *self {
            TodoMessage::Add(p) => TodoMessageView::Add(p@),
            TodoMessage::Delete(id) => TodoMessageView::Delete(id as nat),
            TodoMessage::ReadAll => TodoMessageView::ReadAll,
            TodoMessage::Read(id) => TodoMessageView::Read(id as nat),
            TodoMessage::Update(p, id) => TodoMessageView::Update(p@, id as nat),
        }
    }
}

/// What a successful operation hands back, still unencoded and borrowed from the store.
#[derive(Debug)]
pub enum TodoReply<'a> {
    /// One record.
    Record(&'a Todo),
    /// The whole collection, in order.
    Records(&'a [Todo]),
    /// Nothing.
    Empty,
}

/// The mathematical value of a [`TodoReply`].
pub enum TodoReplyView {
    Record(TodoView),
    Records(Seq<TodoView>),
    Empty,
}

impl<'a> View for TodoReply<'a> {
    type V = TodoReplyView;

    open spec fn view(&self) -> TodoReplyView {
        match *self {
            TodoReply::Record(t) => TodoReplyView::Record(t@),
            TodoReply::Records(ts) => TodoReplyView::Records(views(ts@)),
            TodoReply::Empty => TodoReplyView::Empty,
        }
    }
}

/// The value of an operation's outcome.
pub open spec fn outcome_view(r: Result<TodoReply<'_>, APIError>) -> Result<TodoReplyView, APIError> {
    match r {
        Ok(reply) => Ok(reply@),
        Err(e) => Err(e),
    }
}

/// The collection that handling `msg` leaves behind.
pub open spec fn applied(s: Seq<TodoView>, msg: TodoMessageView) -> Seq<TodoView> {
    match msg {
        TodoMessageView::Add(p) => created(s, p),
        TodoMessageView::Delete(id) => deleted(s, id),
        TodoMessageView::ReadAll => s,
        TodoMessageView::Read(_) => s,
        TodoMessageView::Update(p, id) => updated(s, id, p),
    }
}

/// The answer to `msg` on the collection `s`. Creating answers with the new record;
/// reading, replacing or removing a record that is not there is `NotFound`.
pub open spec fn reply_to(s: Seq<TodoView>, msg: TodoMessageView) -> Result<TodoReplyView, APIError> {
    match msg {
        TodoMessageView::Add(p) => Ok(TodoReplyView::Record(record(next_id(s), p))),
        TodoMessageView::Delete(id) => if position(s, id) is Some {
            Ok(TodoReplyView::Empty)
        } else {
            Err(APIError::NotFound)
        },
        TodoMessageView::ReadAll => Ok(TodoReplyView::Records(s)),
        TodoMessageView::Read(id) => match found(s, id) {
            Some(t) => Ok(TodoReplyView::Record(t)),
            None => Err(APIError::NotFound),
        },
        TodoMessageView::Update(p, id) => if position(s, id) is Some {
            Ok(TodoReplyView::Record(record(id, p)))
        } else {
            Err(APIError::NotFound)
        },
    }
}

/// The collection that handling `msgs` one after the other, in order, leaves behind.
pub open spec fn run(s: Seq<TodoView>, msgs: Seq<TodoMessageView>) -> Seq<TodoView>
    decreases msgs.len(),
{
    if msgs.len() == 0 {
        s
    } else {
        applied(run(s, msgs.drop_last()), msgs.last())
    }
}

impl TodoStore {
    fn handle_read_all(&self) -> (r: Result<TodoReply<'_>, APIError>)
        ensures
            outcome_view(r) == reply_to(self@, TodoMessageView::ReadAll),
    {
        Ok(TodoReply::Records(self.read_all()))
    }

    fn handle_read(&self, id: u64) -> (r: Result<TodoReply<'_>, APIError>)
        ensures
            outcome_view(r) == reply_to(self@, TodoMessageView::Read(id as nat)),
    {
        match self.read_todo(id) {
            Some(t) => Ok(TodoReply::Record(t)),
            None => Err(APIError::NotFound),
        }
    }

    fn handle_add(&mut self, insert_todo: InsertTodo) -> (r: Result<TodoReply<'_>, APIError>)
        requires
            next_id(old(self)@) <= u64::MAX,
        ensures
            final(self)@ == created(old(self)@, insert_todo@),
            outcome_view(r) == reply_to(old(self)@, TodoMessageView::Add(insert_todo@)),
    {
        proof {
            use_type_invariant(&*self);
        }
        let id = self.add_todo(insert_todo);
        proof {
            lemma_create_then_read(old(self)@, insert_todo@);
        }
        self.handle_read(id)
    }

    fn handle_delete(&mut self, id: u64) -> (r: Result<TodoReply<'_>, APIError>)
        ensures
            final(self)@ == deleted(old(self)@, id as nat),
            outcome_view(r) == reply_to(old(self)@, TodoMessageView::Delete(id as nat)),
    {
        if self.remove_todo(id) {
            Ok(TodoReply::Empty)
        } else {
            Err(APIError::NotFound)
        }
    }

    fn handle_update(&mut self, todo: InsertTodo, id: u64) -> (r: Result<TodoReply<'_>, APIError>)
        ensures
            final(self)@ == updated(old(self)@, id as nat, todo@),
            outcome_view(r) == reply_to(old(self)@, TodoMessageView::Update(todo@, id as nat)),
    {
        match self.update_todo(todo, id) {
            Some(t) => Ok(TodoReply::Record(t)),
            None => Err(APIError::NotFound),
        }
    }

    /// Carries out one operation and answers it.
    pub fn handle(&mut self, msg: TodoMessage) -> (r: Result<TodoReply<'_>, APIError>)
        requires
            msg is Add ==> next_id(old(self)@) <= u64::MAX,
        ensures
            final(self)@ == applied(old(self)@, msg@),
            outcome_view(r) == reply_to(old(self)@, msg@),
    {
        match msg {
            TodoMessage::ReadAll => self.handle_read_all(),
            TodoMessage::Read(id) => self.handle_read(id),
            TodoMessage::Add(todo) => self.handle_add(todo),
            TodoMessage::Delete(id) => self.handle_delete(id),
            TodoMessage::Update(todo, id) => self.handle_update(todo, id),
        }
    }
}

} // verus!
