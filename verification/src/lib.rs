//! Verified core of a small todo-list web application.
//!
//! The library models the pieces of the application that carry logic: the
//! persisted data model (todos and attachments), an append-mostly store with
//! foreign-key cascade semantics, the closed set of attachment categories,
//! the declared database schema, HTML page rendering, the request handlers,
//! and startup configuration checks. The surrounding process (HTTP serving,
//! sockets, logging) lives outside the library and only hands plain values in
//! and out.

pub mod category;
pub mod handler;
pub mod model;
pub mod render;
pub mod schema;
pub mod seq_facts;
pub mod startup;
pub mod store;
pub mod text;
