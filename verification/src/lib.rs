//! The counter resource of a small server-rendered web application.
//!
//! The resource shows one integer count. The count travels with the client,
//! in the query string of the page and in the form that the page submits;
//! the server keeps only a default for it, a single named integer in a
//! settings store. Everything here is a function from plain values to plain
//! values: the caller owns the store and the HTTP server, performs the one
//! store access a request may need, and turns the reply into a response.

pub mod action;
pub mod decimal;
pub mod error;
pub mod exchange;
pub mod handler;
pub mod path;
pub mod reply;
pub mod store;
pub mod uri;

pub use action::{Action, CounterAction};
pub use error::CounterError;
pub use handler::{after_fetch, after_store, get_counter, post_counter, respond};
pub use path::{concat_url, Counter, CounterState};
pub use reply::{Pending, Reply, Step};
pub use store::{Fetched, Stored};
