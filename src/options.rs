//! How a tailing cursor over the operation log is opened.
//!
//! The cursor runs against the log collection of the `local` database. It
//! is tailable and awaits new records when it reaches the end, and it never
//! times out. An optional filter restricts which records the server returns.

use crate::record::fields;
use bson::Document;
use vstd::prelude::*;

verus! {

/// The database that holds the operation log.
pub const LOG_DATABASE: &'static str = "local";

/// The collection that holds the operation log.
pub const LOG_COLLECTION: &'static str = "oplog.rs";

/// The options a tailing iterator is opened with; fixed once it is built.
#[derive(Clone, Debug, PartialEq)]
pub struct OplogOptions {
    /// A query that the server applies to the log; `None` returns every record.
    pub filter: Option<Document>,
}

impl OplogOptions {
    /// Options that return every record of the log.
    pub fn new() -> (o: OplogOptions)
        ensures
            o.filter is None,
    {
        OplogOptions { filter: None }
    }

    /// The same options with `filter` in place of the current one.
    pub fn with_filter(self, filter: Option<Document>) -> (o: OplogOptions)
        ensures
            o.filter == filter,
    {
        OplogOptions { filter }
    }

    /// The query sent to the server: the filter, or an empty query, which
    /// every record matches.
    pub fn query(&self) -> (q: Document)
        ensures
            match self.filter {
                Some(f) => q == f,
                None => fields(q).dom() == Set::<Seq<char>>::empty(),
            },
    {
        match &self.filter {
            Some(f) => f.clone(),
            None => Document::new(),
        }
    }
}

} // verus!
