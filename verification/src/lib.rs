//! A repository of todo records with create, find, list, update and delete,
//! kept in memory and safe to share between concurrent callers, together
//! with what each request of the service built on it answers.
//!
//! [`model`] is the mathematics: records and repositories as plain values,
//! each operation as a function on them, and the lemmas that hold of any
//! sequence of operations. [`repositories`] holds the records, the
//! repository interface and the in-memory repository, each operation proved
//! against the model. [`handlers`] maps each request to a repository
//! operation and its outcome to a status. [`shared`] puts one repository
//! behind a reader/writer lock, so that a handle to it can be cloned into
//! every task that serves requests.

pub mod handlers;
pub mod model;
pub mod repositories;
pub mod shared;
