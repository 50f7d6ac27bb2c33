//! The storage boundary: everything the orchestrator asks of a database
//! backend. One adapter per engine implements this trait outside the
//! library; the orchestrator is verified against the contract alone.

use vstd::prelude::*;

use crate::models::ColumnDef;

verus! {

/// A failure reported by a storage adapter; the message is recorded in the
/// run's error list and the batch goes on.
#[derive(Clone, Debug)]
pub struct StoreError {
    pub message: String,
}

impl StoreError {
    /// Creates a storage error carrying the given message.
    pub fn new(message: String) -> (r: StoreError)
        ensures
            r.message == message,
    {
        StoreError { message }
    }
}

/// What the orchestrator needs from a database backend. A row-level insert
/// failure must not abort a file: `store_data` reports how many rows did
/// insert, which can never exceed the rows handed to it.
pub trait StorageService {
    /// Creates (after an optional drop) the table for one source.
    fn create_store(
        &mut self,
        name: String,
        column_defs: Vec<ColumnDef>,
        drop_if_exists: bool,
    ) -> (r: Result<(), StoreError>);

    /// Deletes every row of an existing table, keeping the table itself.
    fn delete_data_in_table(&mut self, name: String) -> (r: Result<(), StoreError>);

    /// Builds the insertion plan for a table: one placeholder per column, in
    /// column order.
    fn create_insert_stmt(&self, store_name: String, column_defs: Vec<ColumnDef>) -> (r: String);

    /// Streams the rows through the insertion plan and reports how many
    /// inserted without error.
    fn store_data(
        &mut self,
        column_defs: Vec<ColumnDef>,
        data: Vec<Vec<String>>,
        insert_stmt: String,
    ) -> (r: Result<usize, StoreError>)
        ensures
            r matches Ok(n) ==> n <= data@.len(),
    ;
}

} // verus!
