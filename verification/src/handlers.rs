//! What each request does to a repository and what it answers: the status
//! of the response and, where there is one, its body.
//!
//! The functions take the request's parameters as plain values, already
//! extracted, and return the response as plain values, not yet encoded.

use crate::repositories::{views, CreateTodo, Todo, TodoRepository, UpdateTodo};
use vstd::prelude::*;

verus! {

/// The status of a response.
#[derive(Debug, Clone, Copy, PartialEq, Eq, Structural)]
pub enum Status {
    /// The request was served and the response carries what it asked for.
    Success,
    /// A record was created and the response carries it.
    Created,
    /// The request was served and there is nothing to send back.
    NoContent,
    /// No record is filed under the identifier that the request names.
    NotFound,
    /// No identifier is left for the record that the request would create.
    InsufficientStorage,
}

impl Status {
    /// The number that stands for the status on the wire.
    pub open spec fn number(self) -> u16 {
        match self {
            Status::Success => 200,
            Status::Created => 201,
            Status::NoContent => 204,
            Status::NotFound => 404,
            Status::InsufficientStorage => 507,
        }
    }

    /// The number that stands for the status on the wire.
    pub fn code(&self) -> (code: u16)
        ensures
            code == self.number(),
    {
        match self {
            Status::Success => 200,
            Status::Created => 201,
            Status::NoContent => 204,
            Status::NotFound => 404,
            Status::InsufficientStorage => 507,
        }
    }
}

/// Answers `Success` with the greeting of the service.
pub fn root() -> (response: (Status, &'static str))
    ensures
        response.0 == Status::Success,
        response.1@ == "Hello, World!"@,
{
    (Status::Success, "Hello, World!")
}

/// Creates a record from `payload` and answers `Created` with the record.
/// A repository that has handed out every identifier stays as it is, and
/// the answer is `InsufficientStorage`.
pub fn create_todo<T: TodoRepository>(
    repository: &mut T,
    payload: CreateTodo,
) -> (response: Result<(Status, Todo), Status>)
    requires
        old(repository)@.inv(),
    ensures
        final(repository)@.inv(),
        match response {
            Ok((status, todo)) => {
                &&& status == Status::Created
                &&& old(repository)@.has_room()
                &&& todo@ == old(repository)@.created(payload@)
                &&& final(repository)@ == old(repository)@.create(payload@)
            },
            Err(status) => {
                &&& status == Status::InsufficientStorage
                &&& !old(repository)@.has_room()
                &&& final(repository)@ == old(repository)@
            },
        },
{
    if repository.is_full() {
        Err(Status::InsufficientStorage)
    } else {
        let todo = repository.create(payload);
        Ok((Status::Created, todo))
    }
}

/// Answers `Success` with the record filed under `id`, or `NotFound`
/// where there is none.
pub fn find_todo<T: TodoRepository>(
    repository: &T,
    id: i32,
) -> (response: Result<(Status, Todo), Status>)
    requires
        repository@.inv(),
    ensures
        match response {
            Ok((status, todo)) => {
                &&& status == Status::Success
                &&& repository@.find(id as int) == Some(todo@)
            },
            Err(status) => {
                &&& status == Status::NotFound
                &&& repository@.find(id as int) is None
            },
        },
{
    match repository.find(id) {
        Some(todo) => Ok((Status::Success, todo)),
        None => Err(Status::NotFound),
    }
}

/// Answers `Success` with every record, each once, in no particular order.
/// With no record stored the list is empty.
pub fn all_todo<T: TodoRepository>(repository: &T) -> (response: (Status, Vec<Todo>))
    requires
        repository@.inv(),
    ensures
        response.0 == Status::Success,
        repository@.lists(views(response.1@)),
{
    let todos = repository.all();
    (Status::Success, todos)
}

/// Applies `payload` to the record filed under `id` and answers `Success`
/// with the new record, or answers `NotFound` and changes nothing where
/// there is no such record.
pub fn update_todo<T: TodoRepository>(
    repository: &mut T,
    id: i32,
    payload: UpdateTodo,
) -> (response: Result<(Status, Todo), Status>)
    requires
        old(repository)@.inv(),
    ensures
        final(repository)@.inv(),
        final(repository)@ == old(repository)@.update(id as int, payload@),
        match response {
            Ok((status, todo)) => {
                &&& status == Status::Success
                &&& old(repository)@.todos.contains_key(id as int)
                &&& todo@ == old(repository)@.updated(id as int, payload@)
            },
            Err(status) => {
                &&& status == Status::NotFound
                &&& !old(repository)@.todos.contains_key(id as int)
                &&& final(repository)@ == old(repository)@
            },
        },
{
    match repository.update(id, payload) {
        Ok(todo) => Ok((Status::Success, todo)),
        Err(_) => Err(Status::NotFound),
    }
}

/// Removes the record filed under `id` and answers `NoContent`, or answers
/// `NotFound` and changes nothing where there is no such record.
pub fn delete_todo<T: TodoRepository>(repository: &mut T, id: i32) -> (status: Status)
    requires
        old(repository)@.inv(),
    ensures
        final(repository)@.inv(),
        final(repository)@ == old(repository)@.delete(id as int),
        status == (if old(repository)@.todos.contains_key(id as int) {
            Status::NoContent
        } else {
            Status::NotFound
        }),
{
    match repository.delete(id) {
        Ok(_) => Status::NoContent,
        Err(_) => Status::NotFound,
    }
}

} // verus!
