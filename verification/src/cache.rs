//! The schema cache: one `DataDefinition` per logical table, accumulated
//! over a run and persisted once at its end through the cache boundary.

use vstd::prelude::*;

use crate::models::{ColumnDef, ColumnDefV};

verus! {

/// What kind of artifact a cache describes.
#[derive(Clone, Copy, Debug, PartialEq, Eq, Structural)]
pub enum CacheType {
    Db,
}

/// A named schema snapshot: the unit stored in the cache.
#[derive(Clone, Debug)]
pub struct DataDefinition {
    pub table_name: String,
    pub columns: Vec<ColumnDef>,
}

/// Mathematical model of a `DataDefinition`.
pub struct DataDefinitionV {
    pub table_name: Seq<char>,
    pub columns: Seq<ColumnDefV>,
}

impl View for DataDefinition {
    type V = DataDefinitionV;

    open spec fn view(&self) -> DataDefinitionV {
        DataDefinitionV { table_name: self.table_name@, columns: self.columns.deep_view() }
    }
}

impl DeepView for DataDefinition {
    type V = DataDefinitionV;

    open spec fn deep_view(&self) -> DataDefinitionV {
        self.view()
    }
}

impl DataDefinition {
    /// Creates a schema snapshot for one table.
    pub fn new(table_name: String, columns: Vec<ColumnDef>) -> (r: DataDefinition)
        ensures
            r.table_name == table_name,
            r.columns == columns,
    {
        DataDefinition { table_name, columns }
    }
}

/// The schema definitions accumulated over one run, written at most once,
/// at the end.
#[derive(Clone, Debug)]
pub struct Cache {
    pub name: String,
    pub cache_type: CacheType,
    pub definitions: Vec<DataDefinition>,
}

impl Cache {
    /// Creates an empty cache for the given logical name.
    pub fn new(name: String, cache_type: CacheType) -> (r: Cache)
        ensures
            r.name == name,
            r.cache_type == cache_type,
            r.definitions@ =~= Seq::<DataDefinition>::empty(),
    {
        Cache { name, cache_type, definitions: Vec::new() }
    }

    /// Appends one schema snapshot to the cache.
    pub fn add_data_definition(&mut self, data_def: DataDefinition)
        ensures
            final(self).name == old(self).name,
            final(self).cache_type == old(self).cache_type,
            final(self).definitions@ == old(self).definitions@.push(data_def),
            final(self).definitions.deep_view() == old(self).definitions.deep_view().push(
                data_def@,
            ),
    {
        crate::models::push_dv(&mut self.definitions, data_def);
    }
}

/// A failure while persisting the cache: reported at the end of the run,
/// never fatal and never part of the run's success classification.
#[derive(Clone, Debug)]
pub struct CacheError {
    pub message: String,
}

/// What the orchestrator needs from a cache store.
pub trait CacheService {
    /// Persists the accumulated cache.
    fn write(&mut self, cache: &Cache) -> (r: Result<(), CacheError>);
}

} // verus!
