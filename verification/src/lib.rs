//! Rebuilds a conversation thread from one tweet id: backwards to the root of
//! the author's own thread, and on request forwards to its latest known
//! continuation. A local store is asked first; what it lacks is fetched from
//! the remote service and written back.
//!
//! The library decides and never performs I/O. [`resolver::ThreadResolver`]
//! says what to ask the store or the remote service next, and takes the answer.

pub mod cache;
pub mod decimal;
pub mod errors;
pub mod links;
pub mod protocol;
pub mod resolver;
pub mod store;
pub mod tweet;
pub mod web;
