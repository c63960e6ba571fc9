//! Session and catalog caching core for a desktop chat client.
//!
//! The crate verifies the data structures and protocols that keep an
//! ordered, dually-indexed view of conversation threads in sync with a
//! durable store while messages stream in, that bound how often remote
//! model catalogs are fetched, and that reconcile in-memory state with
//! the database when concurrent writers could disagree.


pub mod catalog;
pub mod chats_manager;
pub mod coordinator;
pub mod front_map;
pub mod keyed;
pub mod models_manager;
pub mod orchestrator;
pub mod ordered_cache;
pub mod persistence;
pub mod release;
pub mod session;
pub mod store;
pub mod strings;
pub mod unique_id;
