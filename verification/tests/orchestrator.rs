use std::cell::RefCell;
use std::rc::Rc;

use csv_to::cache::{Cache, CacheError, CacheService};
use csv_to::db::{report_lines, DBResults, DbApp};
use csv_to::models::{ColumnDef, DataType, InputSource, ParseError, ParsedContent};
use csv_to::parsers::InputService;
use csv_to::storage::{StorageService, StoreError};
use csv_to::{Config, ConfigService};

struct MockInput {
    sources: Vec<(String, Result<ParsedContent, ParseError>)>,
}

impl InputService for MockInput {
    fn parse(&self, input: InputSource) -> Result<ParsedContent, ParseError> {
        for (loc, r) in &self.sources {
            if *loc == input.location {
                return r.clone();
            }
        }
        Err(ParseError {
            message: format!("unknown source {}", input.location),
        })
    }
}

struct MockStore {
    ops: Rc<RefCell<Vec<String>>>,
    fail_creates_remaining: usize,
    fail_deletes: bool,
    accept: Option<usize>,
}

impl MockStore {
    fn new(ops: Rc<RefCell<Vec<String>>>) -> MockStore {
        MockStore {
            ops,
            fail_creates_remaining: 0,
            fail_deletes: false,
            accept: None,
        }
    }
}

impl StorageService for MockStore {
    fn create_store(
        &mut self,
        name: String,
        _column_defs: Vec<ColumnDef>,
        drop_if_exists: bool,
    ) -> Result<(), StoreError> {
        self.ops
            .borrow_mut()
            .push(format!("create:{}:drop={}", name, drop_if_exists));
        if self.fail_creates_remaining > 0 {
            self.fail_creates_remaining -= 1;
            return Err(StoreError::new("create refused".to_string()));
        }
        Ok(())
    }

    fn delete_data_in_table(&mut self, name: String) -> Result<(), StoreError> {
        self.ops.borrow_mut().push(format!("delete:{}", name));
        if self.fail_deletes {
            return Err(StoreError::new("delete refused".to_string()));
        }
        Ok(())
    }

    fn create_insert_stmt(&self, store_name: String, _column_defs: Vec<ColumnDef>) -> String {
        store_name
    }

    fn store_data(
        &mut self,
        _column_defs: Vec<ColumnDef>,
        data: Vec<Vec<String>>,
        insert_stmt: String,
    ) -> Result<usize, StoreError> {
        let n = match self.accept {
            Some(a) => a.min(data.len()),
            None => data.len(),
        };
        self.ops
            .borrow_mut()
            .push(format!("insert:{}:{}", insert_stmt, n));
        Ok(n)
    }
}

struct MockCache {
    written: Rc<RefCell<Vec<Cache>>>,
    fail: bool,
}

impl CacheService for MockCache {
    fn write(&mut self, cache: &Cache) -> Result<(), CacheError> {
        if self.fail {
            return Err(CacheError {
                message: "disk full".to_string(),
            });
        }
        self.written.borrow_mut().push(cache.clone());
        Ok(())
    }
}

fn config(locations: &[&str], single: Option<&str>, save_cache: bool, delete_data: bool) -> Config {
    Config {
        sources: locations
            .iter()
            .map(|l| InputSource::new(l.to_string()))
            .collect(),
        name: "testdb".to_string(),
        save_cache,
        single_table: single.map(|s| s.to_string()),
        delete_data,
        drop_stores: false,
        headers: true,
    }
}

fn pc(file: &str, cols: &[&str], rows: &[&[&str]]) -> ParsedContent {
    ParsedContent::new(
        file.to_string(),
        cols.iter()
            .map(|c| ColumnDef::new(c.to_string(), DataType::String))
            .collect(),
        rows.iter()
            .map(|r| r.iter().map(|c| c.to_string()).collect())
            .collect(),
        rows.len(),
        Vec::new(),
    )
}

fn people() -> ParsedContent {
    pc(
        "people.csv",
        &["name", "age"],
        &[&["ann", "34"], &["bob", "55"]],
    )
}

fn orders() -> ParsedContent {
    pc(
        "orders.csv",
        &["id", "total"],
        &[&["1", "9.99"], &["2", "5"], &["3", "12.50"]],
    )
}

#[test]
fn multi_table_run_with_cache() {
    let ops = Rc::new(RefCell::new(Vec::new()));
    let written = Rc::new(RefCell::new(Vec::new()));
    let app = DbApp::new(
        config(&["people.csv", "orders.csv"], None, true, false),
        MockInput {
            sources: vec![
                ("people.csv".to_string(), Ok(people())),
                ("orders.csv".to_string(), Ok(orders())),
            ],
        },
        MockCache {
            written: written.clone(),
            fail: false,
        },
        MockStore::new(ops.clone()),
    );
    let report = app.run();

    assert_eq!(report.num_files, 2);
    assert!(report.errors.is_empty());
    assert!(report.warnings.is_empty());
    assert_eq!(report.results.len(), 2);
    assert_eq!(
        *ops.borrow(),
        vec![
            "create:People:drop=false".to_string(),
            "insert:People:2".to_string(),
            "create:Orders:drop=false".to_string(),
            "insert:Orders:3".to_string(),
        ]
    );
    assert_eq!(written.borrow().len(), 1);
    let cache = &written.borrow()[0];
    assert_eq!(cache.name, "testdb");
    assert_eq!(cache.definitions.len(), 2);
    assert_eq!(cache.definitions[0].table_name, "People");
    assert_eq!(cache.definitions[1].table_name, "Orders");
    assert_eq!(cache.definitions[0].columns[1].data_type, DataType::Integer);
    assert_eq!(cache.definitions[1].columns[1].data_type, DataType::Float);
    assert!(report.cache_write_error.is_none());

    let lines = report_lines(&report);
    assert_eq!(
        lines,
        vec![
            "csv-to results".to_string(),
            "-------------------".to_string(),
            "2 files processed / 0 Errors / 0 Warnings".to_string(),
            "✅ People: 2 records loaded".to_string(),
            "✅ Orders: 3 records loaded".to_string(),
        ]
    );
}

#[test]
fn single_table_creates_once_and_caches_once() {
    let ops = Rc::new(RefCell::new(Vec::new()));
    let written = Rc::new(RefCell::new(Vec::new()));
    let app = DbApp::new(
        config(
            &["people.csv", "orders.csv", "more.csv"],
            Some("Everything"),
            true,
            false,
        ),
        MockInput {
            sources: vec![
                ("people.csv".to_string(), Ok(people())),
                ("orders.csv".to_string(), Ok(orders())),
                (
                    "more.csv".to_string(),
                    Ok(pc("more.csv", &["x"], &[&["1"]])),
                ),
            ],
        },
        MockCache {
            written: written.clone(),
            fail: false,
        },
        MockStore::new(ops.clone()),
    );
    let report = app.run();

    assert_eq!(report.num_files, 3);
    assert!(report.using_single_table);
    let creates: Vec<String> = ops
        .borrow()
        .iter()
        .filter(|o| o.starts_with("create:"))
        .cloned()
        .collect();
    assert_eq!(creates, vec!["create:Everything:drop=false".to_string()]);
    assert_eq!(ops.borrow()[0], "create:Everything:drop=false");
    assert_eq!(written.borrow()[0].definitions.len(), 1);
    assert_eq!(written.borrow()[0].definitions[0].table_name, "Everything");

    // in single-table mode the status lines are keyed by file name
    let lines = report_lines(&report);
    assert_eq!(lines[3], "✅ people.csv: 2 records loaded");
    assert_eq!(lines[4], "✅ orders.csv: 3 records loaded");
}

#[test]
fn zero_row_source_warns_and_still_counts() {
    let ops = Rc::new(RefCell::new(Vec::new()));
    let written = Rc::new(RefCell::new(Vec::new()));
    let app = DbApp::new(
        config(&["empty.csv"], None, false, false),
        MockInput {
            sources: vec![(
                "empty.csv".to_string(),
                Ok(pc("empty.csv", &["a"], &[])),
            )],
        },
        MockCache {
            written: written.clone(),
            fail: false,
        },
        MockStore::new(ops.clone()),
    );
    let report = app.run();

    assert_eq!(report.num_files, 1);
    assert!(report.errors.is_empty());
    assert_eq!(
        report.warnings,
        vec!["the input source 'empty.csv' was not a CSV file or had no data.".to_string()]
    );
    assert_eq!(report.results.len(), 1);
    assert_eq!(report.results[0].num_stored, 0);
    assert!(written.borrow().is_empty());
    assert_eq!(report.cache.definitions.len(), 0);

    let lines = report_lines(&report);
    assert_eq!(
        lines,
        vec![
            "csv-to results".to_string(),
            "-------------------".to_string(),
            "1 files processed / 0 Errors / 1 Warnings".to_string(),
            "✅ Empty: 0 records loaded".to_string(),
            "Warning Details".to_string(),
            "-------------".to_string(),
            "the input source 'empty.csv' was not a CSV file or had no data.".to_string(),
        ]
    );
}

#[test]
fn delete_data_mode_never_creates_and_deletes_before_each_load() {
    let ops = Rc::new(RefCell::new(Vec::new()));
    let written = Rc::new(RefCell::new(Vec::new()));
    let app = DbApp::new(
        config(&["people.csv", "orders.csv"], None, false, true),
        MockInput {
            sources: vec![
                ("people.csv".to_string(), Ok(people())),
                ("orders.csv".to_string(), Ok(orders())),
            ],
        },
        MockCache {
            written: written.clone(),
            fail: false,
        },
        MockStore::new(ops.clone()),
    );
    let report = app.run();

    assert_eq!(report.num_files, 2);
    assert_eq!(
        *ops.borrow(),
        vec![
            "delete:People".to_string(),
            "insert:People:2".to_string(),
            "delete:Orders".to_string(),
            "insert:Orders:3".to_string(),
        ]
    );
}

#[test]
fn partial_store_is_reported_as_failure_with_the_gap() {
    let ops = Rc::new(RefCell::new(Vec::new()));
    let written = Rc::new(RefCell::new(Vec::new()));
    let mut store = MockStore::new(ops.clone());
    store.accept = Some(1);
    let app = DbApp::new(
        config(&["orders.csv"], None, false, false),
        MockInput {
            sources: vec![("orders.csv".to_string(), Ok(orders()))],
        },
        MockCache {
            written: written.clone(),
            fail: false,
        },
        store,
    );
    let report = app.run();

    assert_eq!(report.results.len(), 1);
    assert_eq!(report.results[0].num_parsed, 3);
    assert_eq!(report.results[0].num_stored, 1);
    let line = report.results[0].get_results(false).unwrap_err();
    assert_eq!(line, "❌ Orders: had 2 errors");
}

#[test]
fn parse_failure_is_isolated_from_the_rest_of_the_batch() {
    let ops = Rc::new(RefCell::new(Vec::new()));
    let written = Rc::new(RefCell::new(Vec::new()));
    let app = DbApp::new(
        config(&["broken.csv", "people.csv"], None, false, false),
        MockInput {
            sources: vec![
                (
                    "broken.csv".to_string(),
                    Err(ParseError {
                        message: "bad bytes".to_string(),
                    }),
                ),
                ("people.csv".to_string(), Ok(people())),
            ],
        },
        MockCache {
            written: written.clone(),
            fail: false,
        },
        MockStore::new(ops.clone()),
    );
    let report = app.run();

    assert_eq!(report.num_files, 2);
    assert_eq!(report.errors, vec!["parse error: bad bytes".to_string()]);
    assert_eq!(report.results.len(), 1);
    assert_eq!(report.results[0].name, "People");
}

#[test]
fn create_failure_skips_the_source_and_continues() {
    let ops = Rc::new(RefCell::new(Vec::new()));
    let written = Rc::new(RefCell::new(Vec::new()));
    let mut store = MockStore::new(ops.clone());
    store.fail_creates_remaining = 1;
    let app = DbApp::new(
        config(&["people.csv", "orders.csv"], None, false, false),
        MockInput {
            sources: vec![
                ("people.csv".to_string(), Ok(people())),
                ("orders.csv".to_string(), Ok(orders())),
            ],
        },
        MockCache {
            written: written.clone(),
            fail: false,
        },
        store,
    );
    let report = app.run();

    assert_eq!(
        report.errors,
        vec!["error while attempting to create 'People' table => create refused".to_string()]
    );
    assert_eq!(report.results.len(), 1);
    assert_eq!(report.results[0].name, "Orders");
    // a source skipped by a lifecycle failure is not counted as processed
    assert_eq!(report.num_files, 1);
}

#[test]
fn single_table_create_is_retried_on_the_next_source_after_a_failure() {
    let ops = Rc::new(RefCell::new(Vec::new()));
    let written = Rc::new(RefCell::new(Vec::new()));
    let mut store = MockStore::new(ops.clone());
    store.fail_creates_remaining = 1;
    let app = DbApp::new(
        config(&["people.csv", "orders.csv"], Some("One"), false, false),
        MockInput {
            sources: vec![
                ("people.csv".to_string(), Ok(people())),
                ("orders.csv".to_string(), Ok(orders())),
            ],
        },
        MockCache {
            written: written.clone(),
            fail: false,
        },
        store,
    );
    let report = app.run();

    let creates: Vec<String> = ops
        .borrow()
        .iter()
        .filter(|o| o.starts_with("create:"))
        .cloned()
        .collect();
    assert_eq!(creates.len(), 2);
    assert_eq!(report.results.len(), 1);
}

#[test]
fn cache_write_failure_is_reported_but_not_fatal() {
    let ops = Rc::new(RefCell::new(Vec::new()));
    let app = DbApp::new(
        config(&["people.csv"], None, true, false),
        MockInput {
            sources: vec![("people.csv".to_string(), Ok(people()))],
        },
        MockCache {
            written: Rc::new(RefCell::new(Vec::new())),
            fail: true,
        },
        MockStore::new(ops.clone()),
    );
    let report = app.run();

    assert_eq!(report.cache_write_error, Some("disk full".to_string()));
    assert!(report.errors.is_empty());
    assert_eq!(report.results.len(), 1);
    assert_eq!(
        report.results[0].get_results(false).unwrap(),
        "✅ People: 2 records loaded"
    );
}

#[test]
fn row_level_parse_errors_are_collected() {
    let ops = Rc::new(RefCell::new(Vec::new()));
    let written = Rc::new(RefCell::new(Vec::new()));
    let mut source = people();
    source.errors = vec!["row 7: wrong field count".to_string()];
    let app = DbApp::new(
        config(&["people.csv"], None, false, false),
        MockInput {
            sources: vec![("people.csv".to_string(), Ok(source))],
        },
        MockCache {
            written: written.clone(),
            fail: false,
        },
        MockStore::new(ops.clone()),
    );
    let report = app.run();

    assert_eq!(
        report.errors,
        vec!["row 7: wrong field count".to_string()]
    );
    assert_eq!(report.results.len(), 1);

    let lines = report_lines(&report);
    assert_eq!(lines[2], "1 files processed / 1 Errors / 0 Warnings");
    assert_eq!(lines[4], "Error Details");
    assert_eq!(lines[5], "-------------");
    assert_eq!(lines[6], "row 7: wrong field count");
}

#[test]
fn get_table_name_honours_the_single_table_override() {
    let ops = Rc::new(RefCell::new(Vec::new()));
    let app = DbApp::new(
        config(&[], Some("Everything"), false, false),
        MockInput { sources: vec![] },
        MockCache {
            written: Rc::new(RefCell::new(Vec::new())),
            fail: false,
        },
        MockStore::new(ops.clone()),
    );
    assert_eq!(app.get_table_name("people.csv"), "Everything");
}

#[test]
fn drop_stores_is_honoured_on_create() {
    let ops = Rc::new(RefCell::new(Vec::new()));
    let mut cfg = config(&["people.csv"], None, false, false);
    cfg.drop_stores = true;
    let app = DbApp::new(
        cfg,
        MockInput {
            sources: vec![("people.csv".to_string(), Ok(people()))],
        },
        MockCache {
            written: Rc::new(RefCell::new(Vec::new())),
            fail: false,
        },
        MockStore::new(ops.clone()),
    );
    let report = app.run();
    assert_eq!(report.results.len(), 1);
    assert_eq!(ops.borrow()[0], "create:People:drop=true");
}

#[test]
fn cli_options_carry_their_fields() {
    let opt = csv_to::CsvTo::Db {
        files: vec!["people.csv".to_string()],
        directories: vec![],
        db_type: csv_to::db::Types::Postgres,
        connection_info: "host=localhost".to_string(),
        name: "testdb".to_string(),
        drop_stores: false,
        no_headers: false,
    };
    match opt {
        csv_to::CsvTo::Db { files, db_type, name, .. } => {
            assert_eq!(files, vec!["people.csv".to_string()]);
            assert!(matches!(db_type, csv_to::db::Types::Postgres));
            assert_eq!(name, "testdb");
        },
    }
}

#[test]
fn db_results_new_keeps_its_fields() {
    let r = DBResults::new("People".to_string(), "people.csv".to_string(), 5, 5);
    assert_eq!(r.name, "People");
    assert_eq!(r.file_name, "people.csv");
    assert_eq!(r.num_parsed, 5);
    assert_eq!(r.num_stored, 5);
    assert_eq!(r.get_results(true).unwrap(), "✅ people.csv: 5 records loaded");
}

#[test]
fn config_service_accessors() {
    let cfg = config(&["a.csv"], None, false, false);
    assert!(cfg.has_headers());
    assert!(!cfg.should_drop_store());
    let sources = cfg.get_input_sources();
    assert_eq!(sources.len(), 1);
    assert_eq!(sources[0].location, "a.csv");
}
