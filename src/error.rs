use vstd::prelude::*;
use crate::store::Structure;
use crate::text::{owned, push_text};

verus! {

/// Why an index operation failed; each carries the store's own account.
pub enum IndexError {
    /// The store could not be opened or created.
    Connection(String),
    /// A structure of the schema could not be created.
    Schema(Structure, String),
    /// A note could not be indexed.
    Index(String),
    /// A note could not be removed from the index.
    Remove(String),
    /// A listing could not be read.
    Query(String),
    /// A search could not be run.
    Search(String),
}

/// How a message names a structure of the schema.
pub open spec fn structure_label(s: Structure) -> Seq<char> {
    match s {
        Structure::NotesTable => "notes table"@,
        Structure::FtsTable => "FTS table"@,
        Structure::LinksTable => "note_links table"@,
        Structure::SourceIndex => "source index"@,
        Structure::TargetIndex => "target index"@,
    }
}

/// The words a message of each kind starts with.
pub open spec fn error_prefix(e: IndexError) -> Seq<char> {
    match e {
        IndexError::Connection(_) => "Failed to connect to database: "@,
        IndexError::Schema(s, _) => "Failed to create "@ + structure_label(s) + ": "@,
        IndexError::Index(_) => "Failed to index note: "@,
        IndexError::Remove(_) => "Failed to remove note: "@,
        IndexError::Query(_) => "Query failed: "@,
        IndexError::Search(_) => "Search failed: "@,
    }
}

/// The store's account carried by `e`.
pub open spec fn error_detail(e: IndexError) -> Seq<char> {
    match e {
        IndexError::Connection(d) => d@,
        IndexError::Schema(_, d) => d@,
        IndexError::Index(d) => d@,
        IndexError::Remove(d) => d@,
        IndexError::Query(d) => d@,
        IndexError::Search(d) => d@,
    }
}

fn label(s: Structure) -> (r: &'static str)
    ensures
        r@ == structure_label(s),
{
    match s {
        Structure::NotesTable => "notes table",
        Structure::FtsTable => "FTS table",
        Structure::LinksTable => "note_links table",
        Structure::SourceIndex => "source index",
        Structure::TargetIndex => "target index",
    }
}

impl IndexError {
    /// The message shown for this failure: the operation that failed, then
    /// the store's account.
    pub fn message(&self) -> (r: String)
        ensures
            r@ == error_prefix(*self) + error_detail(*self),
    {
        let mut r = match self {
            IndexError::Connection(_) => owned("Failed to connect to database: "),
            IndexError::Schema(s, _) => {
                let mut m = owned("Failed to create ");
                push_text(&mut m, label(*s));
                push_text(&mut m, ": ");
                m
            },
            IndexError::Index(_) => owned("Failed to index note: "),
            IndexError::Remove(_) => owned("Failed to remove note: "),
            IndexError::Query(_) => owned("Query failed: "),
            IndexError::Search(_) => owned("Search failed: "),
        };
        let detail = match self {
            IndexError::Connection(d) => d,
            IndexError::Schema(_, d) => d,
            IndexError::Index(d) => d,
            IndexError::Remove(d) => d,
            IndexError::Query(d) => d,
            IndexError::Search(d) => d,
        };
        push_text(&mut r, detail.as_str());
        r
    }
}

} // verus!
