//! One in-memory repository, shared by every caller that holds a handle.
//!
//! The repository sits behind a single reader/writer lock over the whole
//! mapping. Requests that only read (`find_todo`, `all_todo`) take the lock
//! shared and may run side by side; requests that change the mapping
//! (`create_todo`, `update_todo`, `delete_todo`) take it exclusively and run
//! one after the other. No request does anything but compute while it holds
//! the lock.
//!
//! The lock only ever holds a repository in a valid state that the
//! repository the handle was made with reaches by some sequence of
//! operations: every request that changes the records adds one operation to
//! that sequence.
//!
//! What a request finds in the repository depends on the requests that other
//! holders of the handle made before it. Its contract therefore states what
//! holds of the response whatever the repository held; how the response
//! follows from the records is stated, exactly, by the function of
//! [`crate::handlers`] that it runs under the lock.

use crate::handlers::{all_todo, create_todo, delete_todo, find_todo, update_todo, Status};
use crate::model::{lemma_reaches_itself, lemma_reaches_one_more, Op, RepositoryView};
use crate::repositories::{
    views, CreateTodo, Todo, TodoRepository, TodoRepositoryForMemory, UpdateTodo,
};
use std::sync::Arc;
use vstd::prelude::*;
use vstd::rwlock::{ReadHandle, RwLock, RwLockPredicate, WriteHandle};

verus! {

/// What the lock admits: a repository in a valid state that `initial`
/// reaches.
struct Reached {
    initial: RepositoryView,
}

impl RwLockPredicate<TodoRepositoryForMemory> for Reached {
    closed spec fn inv(self, repository: TodoRepositoryForMemory) -> bool {
        repository@.inv() && self.initial.reaches(repository@)
    }
}

/// A handle to a repository that is shared, not copied: every clone of the
/// handle reaches the same records.
pub struct SharedTodoRepository {
    store: Arc<RwLock<TodoRepositoryForMemory, Reached>>,
}

impl Clone for SharedTodoRepository {
    fn clone(&self) -> (handle: Self)
        ensures
            handle == *self,
    {
        SharedTodoRepository { store: self.store.clone() }
    }
}

impl SharedTodoRepository {
    /// The repository that the handle was made with, as it was then.
    pub closed spec fn initial(&self) -> RepositoryView {
        self.store.pred().initial
    }

    /// Whether the shared repository can be in `state` when a request is
    /// served: `state` is valid, and some sequence of operations leads to it
    /// from the repository that the handle was made with.
    pub open spec fn serves(&self, state: RepositoryView) -> bool {
        state.inv() && self.initial().reaches(state)
    }

    /// A handle to a new, empty repository.
    pub fn new() -> (handle: Self)
        ensures
            handle.initial() == RepositoryView::empty(),
    {
        Self::sharing(TodoRepositoryForMemory::new())
    }

    /// A handle to `repository`, which from now on is reached through the
    /// handle and its clones alone.
    pub fn sharing(repository: TodoRepositoryForMemory) -> (handle: Self)
        requires
            repository@.inv(),
        ensures
            handle.initial() == repository@,
    {
        proof {
            lemma_reaches_itself(repository@);
        }
        let lock = RwLock::new(repository, Ghost(Reached { initial: repository@ }));
        SharedTodoRepository { store: Arc::new(lock) }
    }

    /// Takes the repository out of the lock for writing. No other caller
    /// reads or writes until the guard has put a repository back.
    fn write_store_ref(&self) -> (held: (
        TodoRepositoryForMemory,
        WriteHandle<'_, TodoRepositoryForMemory, Reached>,
    ))
        ensures
            self.serves(held.0@),
            held.1.rwlock() == *self.store,
    {
        self.store.acquire_write()
    }

    /// Takes the lock for reading. Other readers may hold it at the same
    /// time; no writer does.
    fn read_store_ref(&self) -> (guard: ReadHandle<'_, TodoRepositoryForMemory, Reached>)
        ensures
            self.serves(guard.view()@),
    {
        self.store.acquire_read()
    }

    /// Creates a record from `payload` and answers `Created` with the
    /// record. Where the repository has handed out every identifier, it
    /// stays as it is and the answer is `InsufficientStorage`.
    pub fn create_todo(&self, payload: CreateTodo) -> (response: Result<(Status, Todo), Status>)
        ensures
            match response {
                Ok((status, todo)) => {
                    &&& status == Status::Created
                    &&& todo@.text == payload@.text
                    &&& !todo@.completed
                    &&& 1 <= todo@.id
                },
                Err(status) => status == Status::InsufficientStorage,
            },
    {
        let (mut repository, guard) = self.write_store_ref();
        let ghost before = repository@;
        let ghost creation = Op::Create(payload@);
        let response = create_todo(&mut repository, payload);
        proof {
            if response is Ok {
                lemma_reaches_one_more(self.initial(), before, creation);
            }
        }
        guard.release_write(repository);
        response
    }

    /// Answers `Success` with the record filed under `id`, or `NotFound`
    /// where there is none.
    pub fn find_todo(&self, id: i32) -> (response: Result<(Status, Todo), Status>)
        ensures
            match response {
                Ok((status, todo)) => status == Status::Success && todo@.id == id && 1 <= id,
                Err(status) => status == Status::NotFound,
            },
    {
        let guard = self.read_store_ref();
        let response = find_todo(guard.borrow(), id);
        guard.release_read();
        response
    }

    /// Answers `Success` with every record, each once, in no particular
    /// order: the records of the repository as the request finds it.
    pub fn all_todo(&self) -> (response: (Status, Vec<Todo>))
        ensures
            response.0 == Status::Success,
            exists|state: RepositoryView|
                #[trigger] self.serves(state) && state.lists(views(response.1@)),
            forall|i: int| 0 <= i < response.1@.len() ==> 1 <= (#[trigger] response.1@[i])@.id,
            forall|i: int, j: int|
                0 <= i < j < response.1@.len() ==> (#[trigger] response.1@[i])@.id != (
                #[trigger] response.1@[j])@.id,
    {
        let guard = self.read_store_ref();
        let ghost found = guard.view()@;
        let response = all_todo(guard.borrow());
        guard.release_read();
        proof {
            let records = views(response.1@);
            assert(self.serves(found) && found.lists(records));
            assert forall|i: int| 0 <= i < response.1@.len() implies 1 <= (
            #[trigger] response.1@[i])@.id by {
                assert(records[i] == response.1@[i]@);
            }
            assert forall|i: int, j: int| 0 <= i < j < response.1@.len() implies (
            #[trigger] response.1@[i])@.id != (#[trigger] response.1@[j])@.id by {
                assert(records[i] == response.1@[i]@);
                assert(records[j] == response.1@[j]@);
            }
        }
        response
    }

    /// Applies `payload` to the record filed under `id` and answers
    /// `Success` with the new record, or answers `NotFound` and changes
    /// nothing where there is no such record.
    pub fn update_todo(
        &self,
        id: i32,
        payload: UpdateTodo,
    ) -> (response: Result<(Status, Todo), Status>)
        ensures
            match response {
                Ok((status, todo)) => {
                    &&& status == Status::Success
                    &&& todo@.id == id
                    &&& 1 <= id
                    &&& payload@.text matches Some(text) ==> todo@.text == text
                    &&& payload@.completed matches Some(completed) ==> todo@.completed == completed
                },
                Err(status) => status == Status::NotFound,
            },
    {
        let (mut repository, guard) = self.write_store_ref();
        let ghost before = repository@;
        let ghost update = Op::Update(id as int, payload@);
        let response = update_todo(&mut repository, id, payload);
        proof {
            lemma_reaches_one_more(self.initial(), before, update);
        }
        guard.release_write(repository);
        response
    }

    /// Removes the record filed under `id` and answers `NoContent`, or
    /// answers `NotFound` and changes nothing where there is no such record:
    /// which of the two depends on the repository as the request finds it.
    pub fn delete_todo(&self, id: i32) -> (status: Status)
        ensures
            exists|state: RepositoryView|
                #[trigger] self.serves(state) && status == (if state.todos.contains_key(id as int) {
                    Status::NoContent
                } else {
                    Status::NotFound
                }),
            status == Status::NoContent || status == Status::NotFound,
            status == Status::NoContent ==> 1 <= id,
    {
        let (mut repository, guard) = self.write_store_ref();
        let ghost found = repository@;
        let status = delete_todo(&mut repository, id);
        proof {
            lemma_reaches_one_more(self.initial(), found, Op::Delete(id as int));
            assert(self.serves(found));
        }
        guard.release_write(repository);
        status
    }
}

} // verus!
