//! The todo records, the repository interface, and the in-memory
//! repository.
//!
//! Contracts speak of the plain-value views of [`crate::model`]: a record is
//! a [`TodoView`], a repository a [`RepositoryView`].

use crate::model::{CreateTodoView, RepositoryView, TodoView, UpdateTodoView};
use std::collections::HashMap;
use vstd::prelude::*;
use vstd::std_specs::iter::IteratorSpec;

verus! {

/// The one way a repository operation fails: no record is filed under the
/// identifier that was asked for.
#[derive(Debug, Clone, Copy, PartialEq, Eq, Structural)]
pub enum RepositoryError {
    NotFound(i32),
}

/// A todo record. The identifier is assigned by the repository that stores
/// the record and never changes afterwards.
#[derive(Debug, Eq)]
pub struct Todo {
    id: i32,
    text: String,
    completed: bool,
}

/// What a caller supplies to have a record created.
#[derive(Debug, Eq)]
pub struct CreateTodo {
    text: String,
}

/// What a caller supplies to change a record. A field that is `None`
/// leaves the record's field unchanged.
#[derive(Debug, Eq)]
pub struct UpdateTodo {
    text: Option<String>,
    completed: Option<bool>,
}

impl View for Todo {
    type V = TodoView;

    closed spec fn view(&self) -> TodoView {
        TodoView { id: self.id as int, text: self.text@, completed: self.completed }
    }
}

impl View for CreateTodo {
    type V = CreateTodoView;

    closed spec fn view(&self) -> CreateTodoView {
        CreateTodoView { text: self.text@ }
    }
}

impl View for UpdateTodo {
    type V = UpdateTodoView;

    closed spec fn view(&self) -> UpdateTodoView {
        UpdateTodoView {
            text: match self.text {
                Some(text) => Some(text@),
                None => None,
            },
            completed: self.completed,
        }
    }
}

impl PartialEq for Todo {
    fn eq(&self, other: &Self) -> (equal: bool) {
        self.id == other.id && self.text == other.text && self.completed == other.completed
    }
}

impl vstd::std_specs::cmp::PartialEqSpecImpl for Todo {
    open spec fn obeys_eq_spec() -> bool {
        true
    }

    /// Two records are equal where their fields are.
    open spec fn eq_spec(&self, other: &Self) -> bool {
        self@ == other@
    }
}

impl Clone for Todo {
    fn clone(&self) -> (copy: Self)
        ensures
            copy@ == self@,
    {
        Todo { id: self.id, text: self.text.clone(), completed: self.completed }
    }
}

impl PartialEq for CreateTodo {
    fn eq(&self, other: &Self) -> (equal: bool) {
        self.text == other.text
    }
}

impl vstd::std_specs::cmp::PartialEqSpecImpl for CreateTodo {
    open spec fn obeys_eq_spec() -> bool {
        true
    }

    /// Two payloads are equal where their fields are.
    open spec fn eq_spec(&self, other: &Self) -> bool {
        self@ == other@
    }
}

impl Clone for CreateTodo {
    fn clone(&self) -> (copy: Self)
        ensures
            copy@ == self@,
    {
        CreateTodo { text: self.text.clone() }
    }
}

impl PartialEq for UpdateTodo {
    fn eq(&self, other: &Self) -> (equal: bool) {
        let same_text = match (&self.text, &other.text) {
            (Some(mine), Some(theirs)) => *mine == *theirs,
            (None, None) => true,
            _ => false,
        };
        same_text && self.completed == other.completed
    }
}

impl vstd::std_specs::cmp::PartialEqSpecImpl for UpdateTodo {
    open spec fn obeys_eq_spec() -> bool {
        true
    }

    /// Two payloads are equal where their fields are.
    open spec fn eq_spec(&self, other: &Self) -> bool {
        self@ == other@
    }
}

impl Clone for UpdateTodo {
    fn clone(&self) -> (copy: Self)
        ensures
            copy@ == self@,
    {
        let text = match &self.text {
            Some(text) => Some(text.clone()),
            None => None,
        };
        UpdateTodo { text, completed: self.completed }
    }
}

impl Todo {
    /// A record that is not yet completed.
    pub fn new(id: i32, text: String) -> (todo: Self)
        ensures
            todo@ == (TodoView { id: id as int, text: text@, completed: false }),
    {
        Self { id, text, completed: false }
    }

    /// The record with the fields that `payload` holds put in place of its
    /// own.
    pub fn apply(self, payload: UpdateTodo) -> (todo: Self)
        ensures
            todo@ == payload@.apply(self@),
    {
        let text = match payload.text {
            Some(text) => text,
            None => self.text,
        };
        let completed = match payload.completed {
            Some(completed) => completed,
            None => self.completed,
        };
        Todo { id: self.id, text, completed }
    }

    /// The identifier under which the record is filed.
    pub fn id(&self) -> (id: i32)
        ensures
            id == self@.id,
    {
        self.id
    }

    /// What is to be done.
    pub fn text(&self) -> (text: &str)
        ensures
            text@ == self@.text,
    {
        self.text.as_str()
    }

    /// Whether it has been done.
    pub fn completed(&self) -> (completed: bool)
        ensures
            completed == self@.completed,
    {
        self.completed
    }
}

impl CreateTodo {
    /// The payload for a record with this text.
    pub fn new(text: String) -> (payload: Self)
        ensures
            payload@ == (CreateTodoView { text: text@ }),
    {
        Self { text }
    }

    /// The text that the new record is to carry.
    pub fn text(&self) -> (text: &str)
        ensures
            text@ == self@.text,
    {
        self.text.as_str()
    }
}

impl UpdateTodo {
    /// The payload that sets each field that is given and keeps the others.
    pub fn new(text: Option<String>, completed: Option<bool>) -> (payload: Self)
        ensures
            payload@.completed == completed,
            match text {
                Some(text) => payload@.text == Some(text@),
                None => payload@.text is None,
            },
    {
        Self { text, completed }
    }

    /// The new text, if the text is to change.
    pub fn text(&self) -> (text: Option<&str>)
        ensures
            match text {
                Some(text) => self@.text == Some(text@),
                None => self@.text is None,
            },
    {
        match &self.text {
            Some(text) => Some(text.as_str()),
            None => None,
        }
    }

    /// The new completion flag, if the flag is to change.
    pub fn completed(&self) -> (completed: Option<bool>)
        ensures
            completed == self@.completed,
    {
        self.completed
    }
}

/// The records of `todos`, as plain values and in the same order.
pub open spec fn views(todos: Seq<Todo>) -> Seq<TodoView> {
    todos.map_values(|todo: Todo| todo@)
}

/// What every storage backend for todo records provides. Each operation is
/// a transition of the [`RepositoryView`] that the repository stands for, and
/// expects the repository in a valid state, as a constructor makes it and
/// as every operation leaves it.
///
/// The operations that change the records take the repository exclusively;
/// the two that only read share it. Every record that is handed out is a
/// copy: nothing a caller does to it reaches the repository.
pub trait TodoRepository: Clone + Send + Sync + 'static {
    /// The records held and the next identifier.
    spec fn view(&self) -> RepositoryView;

    /// Whether every identifier has been handed out, so that no further
    /// record can be created.
    fn is_full(&self) -> (full: bool)
        requires
            self@.inv(),
        ensures
            full == !self@.has_room(),
    ;

    /// Stores a new record under a fresh identifier and returns a copy of
    /// it. The record is not completed, and no record was filed under its
    /// identifier before.
    ///
    /// Identifiers are never handed out twice, so there must be one left
    /// that fits an `i32`: the repository must not be full.
    fn create(&mut self, payload: CreateTodo) -> (todo: Todo)
        requires
            old(self)@.inv(),
            old(self)@.has_room(),
        ensures
            final(self)@.inv(),
            final(self)@ == old(self)@.create(payload@),
            todo@ == old(self)@.created(payload@),
            !todo@.completed,
            !old(self)@.todos.contains_key(todo@.id),
    ;

    /// A copy of the record filed under `id`, or `None` where there is
    /// none.
    fn find(&self, id: i32) -> (found: Option<Todo>)
        requires
            self@.inv(),
        ensures
            match found {
                Some(todo) => self@.find(id as int) == Some(todo@),
                None => self@.find(id as int) is None,
            },
    ;

    /// A copy of every record, each once, in no particular order.
    fn all(&self) -> (todos: Vec<Todo>)
        requires
            self@.inv(),
        ensures
            self@.lists(views(todos@)),
    ;

    /// Puts the fields that `payload` holds in place of those of the record
    /// filed under `id`, and returns a copy of the new record. Without such
    /// a record the repository stays as it is and the call fails.
    fn update(&mut self, id: i32, payload: UpdateTodo) -> (result: Result<Todo, RepositoryError>)
        requires
            old(self)@.inv(),
        ensures
            final(self)@.inv(),
            final(self)@ == old(self)@.update(id as int, payload@),
            match result {
                Ok(todo) => {
                    &&& old(self)@.todos.contains_key(id as int)
                    &&& todo@ == old(self)@.updated(id as int, payload@)
                },
                Err(error) => {
                    &&& !old(self)@.todos.contains_key(id as int)
                    &&& error == RepositoryError::NotFound(id)
                    &&& final(self)@ == old(self)@
                },
            },
    ;

    /// Removes the record filed under `id`. Without such a record the
    /// repository stays as it is and the call fails.
    fn delete(&mut self, id: i32) -> (result: Result<(), RepositoryError>)
        requires
            old(self)@.inv(),
        ensures
            final(self)@.inv(),
            final(self)@ == old(self)@.delete(id as int),
            match result {
                Ok(_) => old(self)@.todos.contains_key(id as int),
                Err(error) => {
                    &&& !old(self)@.todos.contains_key(id as int)
                    &&& error == RepositoryError::NotFound(id)
                    &&& final(self)@ == old(self)@
                },
            },
    ;
}

/// The repository that keeps its records in memory, for the lifetime of the
/// process. Identifiers come from a counter that only ever grows, so an
/// identifier is never handed out twice, whatever was deleted in between.
#[derive(Debug)]
pub struct TodoRepositoryForMemory {
    store: HashMap<i32, Todo>,
    last_id: i32,
}

impl Clone for TodoRepositoryForMemory {
    fn clone(&self) -> (copy: Self)
        ensures
            copy@ == self@,
    {
        TodoRepositoryForMemory { store: self.store.clone(), last_id: self.last_id }
    }
}

impl TodoRepositoryForMemory {
    /// The records by identifier, read off the hash map.
    spec fn records(self) -> Map<int, TodoView> {
        Map::new(
            |id: int| i32::MIN <= id <= i32::MAX && self.store@.contains_key(id as i32),
            |id: int| self.store@[id as i32]@,
        )
    }

    /// As many records are read off the hash map as it has entries.
    proof fn lemma_records_len(self)
        ensures
            self.records().dom().finite(),
            self.records().len() == self.store@.len(),
    {
        let widen = |id: i32| id as int;
        assert(self.store@.dom().map(widen) =~= self.records().dom()) by {
            assert forall|id: int| self.records().dom().contains(id) implies self.store@.dom().map(
                widen,
            ).contains(id) by {
                assert(self.store@.dom().contains(id as i32) && widen(id as i32) == id);
            }
        }
        vstd::set_lib::lemma_map_size(self.store@.dom(), self.records().dom(), widen);
    }

    /// An empty repository, whose first record will get the identifier 1.
    pub fn new() -> (repository: Self)
        ensures
            repository@ == RepositoryView::empty(),
            repository@.inv(),
    {
        Self::starting_at(1)
    }

    /// An empty repository that numbers its records from `first_id` on.
    pub fn starting_at(first_id: i32) -> (repository: Self)
        requires
            1 <= first_id,
        ensures
            repository@ == (RepositoryView { todos: Map::empty(), next_id: first_id as int }),
            repository@.inv(),
    {
        let repository = TodoRepositoryForMemory { store: HashMap::new(), last_id: first_id - 1 };
        assert(repository.records() =~= Map::<int, TodoView>::empty());
        repository
    }
}

impl TodoRepository for TodoRepositoryForMemory {
    closed spec fn view(&self) -> RepositoryView {
        RepositoryView { todos: self.records(), next_id: self.last_id + 1 }
    }

    fn is_full(&self) -> (full: bool) {
        self.last_id == i32::MAX
    }

    fn create(&mut self, payload: CreateTodo) -> (todo: Todo) {
        let id: i32 = self.last_id + 1;
        let todo = Todo::new(id, payload.text);
        self.store.insert(id, todo.clone());
        self.last_id = id;
        assert(self.records() =~= old(self).records().insert(id as int, todo@));
        todo
    }

    fn find(&self, id: i32) -> (found: Option<Todo>) {
        match self.store.get(&id) {
            Some(todo) => Some(todo.clone()),
            None => None,
        }
    }

    fn all(&self) -> (todos: Vec<Todo>) {
        let mut todos: Vec<Todo> = Vec::new();
        for entry in entries: self.store.iter()
            invariant
                entries.seq() == self.store.iter().remaining(),
                entries.seq().no_duplicates(),
                todos@.len() == entries.index(),
                forall|i: int|
                    0 <= i < todos@.len() ==> (#[trigger] todos@[i])@ == (*entries.seq()[i].1)@,
        {
            todos.push(entry.1.clone());
        }
        proof {
            // The iterator yields each entry of the map once, and the record
            // copied from an entry is filed under the entry's key.
            let pairs = self.store.iter().remaining();
            self.lemma_records_len();
            assert forall|i: int| 0 <= i < todos@.len() implies self@.find(
                #[trigger] views(todos@)[i].id,
            ) == Some(views(todos@)[i]) by {
                assert(self.records().contains_key(*pairs[i].0 as int));
            }
            assert forall|i: int, j: int| 0 <= i < j < todos@.len() implies views(todos@)[i].id
                != views(todos@)[j].id by {
                assert(self.records().contains_key(*pairs[i].0 as int));
                assert(self.records().contains_key(*pairs[j].0 as int));
                assert(pairs[i] != pairs[j]);
            }
        }
        todos
    }

    fn update(&mut self, id: i32, payload: UpdateTodo) -> (result: Result<Todo, RepositoryError>) {
        let todo = match self.store.get(&id) {
            Some(todo) => todo.clone().apply(payload),
            None => { return Err(RepositoryError::NotFound(id)); },
        };
        self.store.insert(id, todo.clone());
        assert(self.records() =~= old(self).records().insert(id as int, todo@));
        Ok(todo)
    }

    fn delete(&mut self, id: i32) -> (result: Result<(), RepositoryError>) {
        match self.store.remove(&id) {
            Some(_) => {
                assert(self.records() =~= old(self).records().remove(id as int));
                Ok(())
            },
            None => {
                assert(self.records() =~= old(self).records());
                Err(RepositoryError::NotFound(id))
            },
        }
    }
}

} // verus!
