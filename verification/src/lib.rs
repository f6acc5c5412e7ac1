//! Verified core of a catalog-and-review service.
//!
//! The service keeps its data in a relational store that this crate never
//! touches. Every operation is a pure function from the caller's arguments
//! and the answers the store has given so far to the next thing to do: a
//! statement to run, or the operation's result.

pub mod credentials;
pub mod display;
pub mod error;
pub mod files;
pub mod forms;
pub mod items;
pub mod links;
pub mod model;
pub mod paging;
pub mod policy;
pub mod protocol;
pub mod ratings;
pub mod store;
pub mod text;
pub mod users;
