//! A full-text index of a vault of notes, kept in a relational store.
//!
//! The library decides everything the index does and hands the store plain
//! statements: the schema (`store`), the upsert that keeps a note's creation
//! time and its shadow search entry in step (`store`), listings with
//! structured filters (`listing`), ranked prefix search (`query`), one pool
//! per store (`registry`), document ids (`ident`), and the vault's file tree
//! and change events (`tree`, `events`), and the kinds of failure
//! (`error`). Running the statements, walking
//! the disk and watching it are left to the caller.

pub mod error;
pub mod events;
pub mod ident;
pub mod listing;
pub mod query;
pub mod registry;
pub mod store;
mod text;
pub mod tree;
