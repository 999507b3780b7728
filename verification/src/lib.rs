//! A small blog-post store behind one interface.
//!
//! - [`interface`]: the post, its identifier, and the three operations that
//!   every backend offers: create, get by identifier, list the latest.
//! - [`history`]: what those operations mean on a store's posts taken as a
//!   sequence, oldest first, and the laws that follow.
//! - [`inmemory`]: a backend that keeps its posts in a vector.
//! - [`relational`]: the rows of a relational backend and their mapping to
//!   posts; the statements themselves are run by whoever holds the
//!   connection.
//! - [`timestamp`] and [`identifier`]: the clock and the random identifiers
//!   that both backends draw on.

pub mod history;
pub mod identifier;
pub mod inmemory;
pub mod interface;
pub mod relational;
pub mod timestamp;
