//! The store: sole owner of the collection of records.

use vstd::prelude::*;
use crate::model::{
    created, deleted, found, ids_increasing, is_first_match, lemma_first_match_is_position,
    lemma_position_none, next_id, position, updated,
};
use crate::record::{record, InsertTodo, Todo, TodoView};

verus! {

/// The values of a run of records, in order.
pub open spec fn views(s: Seq<Todo>) -> Seq<TodoView> {
    s.map_values(|t: Todo| t@)
}

/// Owns the records, in the order in which they were created.
pub struct TodoStore {
    todos: Vec<Todo>,
}

impl View for TodoStore {
    type V = Seq<TodoView>;

    closed spec fn view(&self) -> Seq<TodoView> {
        views(self.todos@)
    }
}

impl Default for TodoStore {
    /// The empty store.
    fn default() -> (store: Self)
        ensures
            store@ == Seq::<TodoView>::empty(),
    {
        TodoStore { todos: Vec::new() }
    }
}

impl TodoStore {
    /// What every store satisfies: identifiers grow strictly in collection order.
    #[verifier::type_invariant]
    pub open spec fn wf(&self) -> bool {
        ids_increasing(self@)
    }

    /// Whether one more record can be created: the identifier it would receive fits.
    pub fn has_room(&self) -> (room: bool)
        ensures
            room == (next_id(self@) <= u64::MAX),
    {
        let n = self.todos.len();
        n == 0 || self.todos[n - 1].id < u64::MAX
    }

    /// Appends a record made from `todo` and returns the identifier given to it. The
    /// identifier must fit: the last record may not already hold the largest one.
    pub fn add_todo(&mut self, todo: InsertTodo) -> (id: u64)
        requires
            next_id(old(self)@) <= u64::MAX,
        ensures
            id == next_id(old(self)@),
            final(self)@ == created(old(self)@, todo@),
    {
        proof {
            use_type_invariant(&*self);
        }
        let n = self.todos.len();
        let id: u64 = if n == 0 {
            1
        } else {
            self.todos[n - 1].id + 1
        };
        let mut todos = Vec::new();
        std::mem::swap(&mut todos, &mut self.todos);
        todos.push(Todo::from_insert_todo(todo, id));
        proof {
            assert(views(todos@) =~= created(old(self)@, todo@));
        }
        self.todos = todos;
        id
    }

    /// Position of the first record with the identifier `id`.
    fn find(&self, id: u64) -> (at: Option<usize>)
        ensures
            (match at {
                Some(i) => position(self@, id as nat) == Some(i as int),
                None => position(self@, id as nat) is None,
            }),
    {
        let mut i: usize = 0;
        while i < self.todos.len()
            invariant
                i <= self.todos.len(),
                forall|j: int| 0 <= j < i ==> self@[j].id != id,
            decreases self.todos.len() - i,
        {
            if self.todos[i].id == id {
                proof {
                    assert(is_first_match(self@, id as nat, i as int));
                    lemma_first_match_is_position(self@, id as nat, i as int);
                }
                return Some(i);
            }
            i += 1;
        }
        proof {
            lemma_position_none(self@, id as nat);
        }
        None
    }

    /// Removes the record `id`, keeping the others in order. Says whether there was one.
    pub fn remove_todo(&mut self, id: u64) -> (removed: bool)
        ensures
            removed == position(old(self)@, id as nat).is_some(),
            final(self)@ == deleted(old(self)@, id as nat),
    {
        proof {
            use_type_invariant(&*self);
        }
        match self.find(id) {
            None => false,
            Some(i) => {
                let mut todos = Vec::new();
                std::mem::swap(&mut todos, &mut self.todos);
                let _ = todos.remove(i);
                proof {
                    assert(views(todos@) =~= old(self)@.remove(i as int));
                }
                self.todos = todos;
                true
            },
        }
    }

    /// Replaces the payload of the record `id` by `todo`, in place, and returns the new record.
    pub fn update_todo(&mut self, todo: InsertTodo, id: u64) -> (replaced: Option<&Todo>)
        ensures
            final(self)@ == updated(old(self)@, id as nat, todo@),
            (match replaced {
                Some(t) => position(old(self)@, id as nat) is Some && t@ == record(id as nat, todo@),
                None => position(old(self)@, id as nat) is None,
            }),
    {
        proof {
            use_type_invariant(&*self);
        }
        match self.find(id) {
            None => None,
            Some(i) => {
                let mut todos = Vec::new();
                std::mem::swap(&mut todos, &mut self.todos);
                todos[i] = Todo::from_insert_todo(todo, id);
                proof {
                    assert(views(todos@) =~= old(self)@.update(i as int, record(id as nat, todo@)));
                }
                self.todos = todos;
                Some(&self.todos[i])
            },
        }
    }

    /// The record with the identifier `id`: the first one, in collection order, that has it.
    pub fn read_todo(&self, id: u64) -> (hit: Option<&Todo>)
        ensures
            (match hit {
                Some(t) => Some(t@),
                None => None,
            }) == found(self@, id as nat),
    {
        match self.find(id) {
            None => None,
            Some(i) => Some(&self.todos[i]),
        }
    }

    /// All records, in collection order.
    pub fn read_all(&self) -> (all: &[Todo])
        ensures
            views(all@) == self@,
    {
        self.todos.as_slice()
    }
}

} // verus!
