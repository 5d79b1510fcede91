//! The core of a small to-do service: the two shapes of an item, the calls
//! that its repository hands to a document store, and the answers that its
//! request handlers give.
//!
//! Nothing here talks to a store or to a network. A caller performs each
//! storage call that the library prepares and hands the store's reply back,
//! so that every decision of the service is made, and proved, here.
//!
//! - [`item`]: an item as clients see it and as the store keeps it.
//! - [`ident`]: identifiers, read and drawn by the `uuid` crate.
//! - [`document`]: the filter and the update of a call, built by the `bson`
//!   crate.
//! - [`failure`]: the ways in which a request can fail.
//! - [`repository`]: the four operations on the collection.
//! - [`handler`]: the answer to each request, with its status.
//! - [`collection`]: what the store is taken to do with the calls.
//! - [`laws`]: what the functions achieve together.

pub mod collection;
pub mod document;
pub mod failure;
pub mod handler;
pub mod ident;
pub mod item;
pub mod laws;
pub mod repository;
