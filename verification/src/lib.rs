//! A verified core for a CSV-to-database loader: schema inference from
//! untyped tabular data, table-name derivation, table-lifecycle
//! reconciliation, the per-source load loop with failure isolation, and
//! schema-cache accumulation. Parsing, storage and cache persistence are
//! capability boundaries, reached through traits that adapters outside the
//! library implement.

#![allow(unused_imports)]

use vstd::prelude::*;

pub mod cache;
pub mod db;
pub mod inference;
pub mod model;
pub mod models;
pub mod names;
pub mod parsers;
pub mod storage;
pub mod strutil;

use crate::db::Types;
use crate::models::{InputSource, ParsedContent};

verus! {

/// All command line options, broken into their sub-commands.
#[derive(Debug)]
pub enum CsvTo {
    Db {
        files: Vec<String>,
        directories: Vec<String>,
        db_type: Types,
        connection_info: String,
        name: String,
        drop_stores: bool,
        no_headers: bool,
    },
}

/// The common interface of the sub-commands, so a caller can start the
/// selected application without knowing which one it is.
pub trait App {
    /// Executes the sub-command.
    fn run(&self) -> Result<ParsedContent, crate::db::DbError>;
}

/// Everything the user asked for in one run, assembled by the caller from
/// the command line.
#[derive(Debug)]
pub struct Config {
    /// All input files/sources, in enumeration order.
    pub sources: Vec<InputSource>,
    /// The logical name of the database / target.
    pub name: String,
    /// Whether the inferred schemas are persisted at the end of the run.
    pub save_cache: bool,
    /// An explicit table name collapsing all sources into one table, when
    /// given.
    pub single_table: Option<String>,
    /// Whether existing tables keep their shape and only lose their rows.
    pub delete_data: bool,
    /// Whether tables are dropped before they are created.
    pub drop_stores: bool,
    /// Whether the input files have column headers.
    pub headers: bool,
}

/// Mathematical model of a `Config`.
pub struct ConfigV {
    pub sources: Seq<Seq<char>>,
    pub name: Seq<char>,
    pub save_cache: bool,
    pub single_table: Option<Seq<char>>,
    pub delete_data: bool,
    pub drop_stores: bool,
    pub headers: bool,
}

impl View for Config {
    type V = ConfigV;

    open spec fn view(&self) -> ConfigV {
        ConfigV {
            sources: self.sources.deep_view(),
            name: self.name@,
            save_cache: self.save_cache,
            single_table: match self.single_table {
                Option::Some(t) => Option::Some(t@),
                Option::None => Option::None,
            },
            delete_data: self.delete_data,
            drop_stores: self.drop_stores,
            headers: self.headers,
        }
    }
}

/// ConfigService encapsulates the input from the user, so each sub-command
/// has access to it without gathering it itself.
pub trait ConfigService {
    /// Returns all input files/sources.
    fn get_input_sources(&self) -> Vec<InputSource>;

    /// Returns true if the input files have column headers; currently all
    /// files have them or none of them do.
    fn has_headers(&self) -> bool;

    /// Returns true if tables/collections should be removed before loading
    /// the data.
    fn should_drop_store(&self) -> bool;
}

impl ConfigService for Config {
    fn get_input_sources(&self) -> (r: Vec<InputSource>)
        ensures
            r.deep_view() == self.sources.deep_view(),
    {
        let mut r: Vec<InputSource> = Vec::new();
        let n = self.sources.len();
        let mut i: usize = 0;
        while i < n
            invariant
                i <= n,
                n == self.sources@.len(),
                r@.len() == i,
                forall|k: int| 0 <= k < i ==> (#[trigger] r@[k])@ == self.sources@[k]@,
            decreases n - i,
        {
            let s = self.sources[i].clone();
            proof {
                assert(s@ == self.sources@[i as int]@);
            }
            r.push(s);
            i += 1;
        }
        proof {
            assert forall|k: int| 0 <= k < n implies r.deep_view()[k]
                == self.sources.deep_view()[k] by {
                assert(r.deep_view()[k] == r@[k]@);
                assert(self.sources.deep_view()[k] == self.sources@[k]@);
            }
            assert(r.deep_view() =~= self.sources.deep_view());
        }
        r
    }

    fn has_headers(&self) -> (r: bool)
        ensures
            r == self.headers,
    {
        self.headers
    }

    fn should_drop_store(&self) -> (r: bool)
        ensures
            r == self.drop_stores,
    {
        self.drop_stores
    }
}

} // verus!
