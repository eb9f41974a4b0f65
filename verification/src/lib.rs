//! Lifecycle tracking for asynchronous work items ("todos").
//!
//! The crate holds the todo entity with its transition rule, the mapping
//! between a todo and the record kept for it in a key-value table, and the
//! decisions of the submit and transition procedures. Sending a request to
//! the table and serving HTTP are left to the caller: every function here
//! works on plain values.
//!
//! A caller looks a todo up in three steps: `get_todo_request` forms the
//! query, the caller sends it, and `get_todo_outcome` reads the answer. A
//! write goes the same way through `put_todo_request` and `put_todo_outcome`.
//! Between a lookup and a write stands one of the decisions of `api::todo`;
//! after the write, `submit_outcome` or `transition_outcome` gives the answer.
//!
//! What these steps come to on a table is stated over a model of the table,
//! a map from keys to records, and proved there: a stored todo is found again
//! as it was stored, a transition to another state is found afterwards, and
//! a refused transition changes nothing.

pub mod api;
pub mod model;
pub mod repository;
