//! The db sub-command: the orchestrator that drives the per-source loop,
//! isolates failures, aggregates warnings, errors and results, accumulates
//! the schema cache, and produces the final report.

use vstd::prelude::*;

use crate::cache::{Cache, CacheService, CacheType, DataDefinition};
use crate::model::{
    inferred_columns, outcome_wf, run_state, step_state, table_for, trace_wf, RunState,
    SourceOutcome,
};
use crate::models::{append_strings, clone_columns, push_dv, ColumnDef};
use crate::names::derive_table_name;
use crate::parsers::InputService;
use crate::storage::{StorageService, StoreError};
use crate::strutil::{dec_chars, lower_chars, usize_to_string};
use crate::Config;

verus! {

/// The exit code reported for a usage error, such as an unsupported
/// database type.
pub const EXIT_USAGE: i32 = 64;

/// The database engines a run can target.
#[derive(Debug, Clone, Copy, PartialEq, Eq, Structural)]
pub enum Types {
    MySQL,
    Postgres,
    SQLite,
}

/// A fatal startup error: an unsupported engine type or an unreachable
/// store.
#[derive(Debug)]
pub struct DbError {
    pub msg: String,
    pub exit_code: i32,
}

impl DbError {
    /// The exit code the process should end with.
    pub fn get_exit_code(&self) -> (r: i32)
        ensures
            r == self.exit_code,
    {
        self.exit_code
    }

    /// The human-readable message.
    pub fn get_msg(&self) -> (r: String)
        ensures
            r@ == self.msg@,
    {
        self.msg.clone()
    }

    /// Creates an error with the given message and exit code.
    pub fn new(msg: String, exit_code: i32) -> (r: DbError)
        ensures
            r.msg == msg,
            r.exit_code == exit_code,
    {
        DbError { msg, exit_code }
    }
}

/// The message reported for an unsupported database type.
pub open spec fn msg_bad_db_type(s: Seq<char>) -> Seq<char> {
    "ERROR: '"@ + s + "' is not a supported database type"@
}

impl Types {
    /// Parses an engine name, case-insensitively. Unsupported names are a
    /// usage error.
    pub fn from_str(s: &str) -> (r: Result<Types, DbError>)
        ensures
            match r {
                Ok(t) => {
                    &&& (lower_chars(s@) == "sqlite"@ <==> t == Types::SQLite)
                    &&& (lower_chars(s@) == "postgres"@ <==> t == Types::Postgres)
                    &&& (lower_chars(s@) == "mysql"@ <==> t == Types::MySQL)
                },
                Err(e) => {
                    &&& lower_chars(s@) != "sqlite"@
                    &&& lower_chars(s@) != "postgres"@
                    &&& lower_chars(s@) != "mysql"@
                    &&& e.msg@ == msg_bad_db_type(s@)
                    &&& e.exit_code == EXIT_USAGE
                },
            },
    {
        proof {
            reveal_strlit("sqlite");
            reveal_strlit("postgres");
            reveal_strlit("mysql");
            assert(lower_chars("sqlite"@) =~= "sqlite"@);
            assert(lower_chars("postgres"@) =~= "postgres"@);
            assert(lower_chars("mysql"@) =~= "mysql"@);
        }
        if crate::strutil::eq_ignore_ascii_case(s, "sqlite") {
            Ok(Types::SQLite)
        } else if crate::strutil::eq_ignore_ascii_case(s, "postgres") {
            Ok(Types::Postgres)
        } else if crate::strutil::eq_ignore_ascii_case(s, "mysql") {
            Ok(Types::MySQL)
        } else {
            let mut m = "ERROR: '".to_owned();
            m.append(s);
            m.append("' is not a supported database type");
            Err(DbError { msg: m, exit_code: EXIT_USAGE })
        }
    }
}

/// The outcome of loading one source: how many records the parser saw and
/// how many the store accepted.
#[derive(Debug)]
pub struct DBResults {
    pub name: String,
    pub file_name: String,
    pub num_parsed: usize,
    pub num_stored: usize,
}

/// Mathematical model of a `DBResults`.
pub struct DBResultsV {
    pub name: Seq<char>,
    pub file_name: Seq<char>,
    pub num_parsed: nat,
    pub num_stored: nat,
}

impl View for DBResults {
    type V = DBResultsV;

    open spec fn view(&self) -> DBResultsV {
        DBResultsV {
            name: self.name@,
            file_name: self.file_name@,
            num_parsed: self.num_parsed as nat,
            num_stored: self.num_stored as nat,
        }
    }
}

impl DeepView for DBResults {
    type V = DBResultsV;

    open spec fn deep_view(&self) -> DBResultsV {
        self.view()
    }
}

/// The status line of a fully loaded source.
pub open spec fn msg_load_ok(shown: Seq<char>, stored: nat) -> Seq<char> {
    "✅ "@ + shown + ": "@ + dec_chars(stored) + " records loaded"@
}

/// The status line of a partially loaded source, showing the gap.
pub open spec fn msg_load_failed(shown: Seq<char>, gap: nat) -> Seq<char> {
    "❌ "@ + shown + ": had "@ + dec_chars(gap) + " errors"@
}

impl DBResults {
    /// Records the outcome of one source.
    pub fn new(name: String, file_name: String, num_parsed: usize, num_stored: usize) -> (r:
        DBResults)
        ensures
            r.name == name,
            r.file_name == file_name,
            r.num_parsed == num_parsed,
            r.num_stored == num_stored,
    {
        DBResults { name, file_name, num_parsed, num_stored }
    }

    /// The status line of this source: success if and only if every parsed
    /// record was stored. In single-table mode the line is keyed by file
    /// name, since the table name is shared; otherwise by table name.
    pub fn get_results(&self, using_single_table: bool) -> (r: Result<String, String>)
        requires
            self.num_stored <= self.num_parsed,
        ensures
            ({
                let shown = if using_single_table {
                    self.file_name@
                } else {
                    self.name@
                };
                match r {
                    Ok(m) => self.num_stored == self.num_parsed && m@ == msg_load_ok(
                        shown,
                        self.num_stored as nat,
                    ),
                    Err(m) => self.num_stored != self.num_parsed && m@ == msg_load_failed(
                        shown,
                        (self.num_parsed - self.num_stored) as nat,
                    ),
                }
            }),
    {
        let shown: &String = if using_single_table {
            &self.file_name
        } else {
            &self.name
        };
        if self.num_stored != self.num_parsed {
            let mut m = "❌ ".to_owned();
            m.append(shown.as_str());
            m.append(": had ");
            let gap = usize_to_string(self.num_parsed - self.num_stored);
            m.append(gap.as_str());
            m.append(" errors");
            return Err(m);
        }
        let mut m = "✅ ".to_owned();
        m.append(shown.as_str());
        m.append(": ");
        let cnt = usize_to_string(self.num_stored);
        m.append(cnt.as_str());
        m.append(" records loaded");
        Ok(m)
    }
}

/// The message recorded when a whole source fails to parse.
pub open spec fn msg_parse_error(e: Seq<char>) -> Seq<char> {
    "parse error: "@ + e
}

/// The warning recorded for a source without parsed records.
pub open spec fn msg_not_csv(file_name: Seq<char>) -> Seq<char> {
    "the input source '"@ + file_name + "' was not a CSV file or had no data."@
}

/// The message recorded when creating a table fails.
pub open spec fn msg_create_failed(table: Seq<char>, e: Seq<char>) -> Seq<char> {
    "error while attempting to create '"@ + table + "' table => "@ + e
}

/// The message recorded when deleting the rows of a table fails.
pub open spec fn msg_delete_failed(table: Seq<char>, e: Seq<char>) -> Seq<char> {
    "error while attempting to delete data from table '"@ + table + "', error '"@ + e + "'"@
}

fn build_msg_parse_error(e: &str) -> (r: String)
    ensures
        r@ == msg_parse_error(e@),
{
    let mut m = "parse error: ".to_owned();
    m.append(e);
    m
}

fn build_msg_not_csv(file_name: &str) -> (r: String)
    ensures
        r@ == msg_not_csv(file_name@),
{
    let mut m = "the input source '".to_owned();
    m.append(file_name);
    m.append("' was not a CSV file or had no data.");
    m
}

fn build_msg_create_failed(table: &str, e: &str) -> (r: String)
    ensures
        r@ == msg_create_failed(table@, e@),
{
    let mut m = "error while attempting to create '".to_owned();
    m.append(table);
    m.append("' table => ");
    m.append(e);
    m
}

fn build_msg_delete_failed(table: &str, e: &str) -> (r: String)
    ensures
        r@ == msg_delete_failed(table@, e@),
{
    let mut m = "error while attempting to delete data from table '".to_owned();
    m.append(table);
    m.append("', error '");
    m.append(e);
    m.append("'");
    m
}

/// Everything one run produced: the per-source results, the accumulated
/// errors and warnings, how many files were processed, and the cache that
/// was (or would have been) persisted.
#[derive(Debug)]
pub struct RunReport {
    pub results: Vec<DBResults>,
    pub errors: Vec<String>,
    pub warnings: Vec<String>,
    pub num_files: usize,
    pub using_single_table: bool,
    pub cache: Cache,
    pub cache_write_error: Option<String>,
}

/// Mathematical model of a `RunReport`.
pub struct RunReportV {
    pub results: Seq<DBResultsV>,
    pub errors: Seq<Seq<char>>,
    pub warnings: Seq<Seq<char>>,
    pub num_files: nat,
    pub using_single_table: bool,
    pub cache_name: Seq<char>,
    pub cache_defs: Seq<crate::cache::DataDefinitionV>,
    pub cache_write_error: Option<Seq<char>>,
}

impl View for RunReport {
    type V = RunReportV;

    open spec fn view(&self) -> RunReportV {
        RunReportV {
            results: self.results.deep_view(),
            errors: self.errors.deep_view(),
            warnings: self.warnings.deep_view(),
            num_files: self.num_files as nat,
            using_single_table: self.using_single_table,
            cache_name: self.cache.name@,
            cache_defs: self.cache.definitions.deep_view(),
            cache_write_error: match self.cache_write_error {
                Option::Some(e) => Option::Some(e@),
                Option::None => Option::None,
            },
        }
    }
}

/// Whether a report shows exactly the observable part of a run state.
pub open spec fn report_matches(r: RunReportV, st: RunState) -> bool {
    &&& r.results == st.results
    &&& r.errors == st.errors
    &&& r.warnings == st.warnings
    &&& r.num_files == st.num_files
    &&& r.cache_defs == st.cache_defs
}

/// One status line per source: success if and only if every parsed record
/// was stored.
pub open spec fn status_line(d: DBResultsV, using_single_table: bool) -> Seq<char> {
    let shown = if using_single_table {
        d.file_name
    } else {
        d.name
    };
    if d.num_stored == d.num_parsed {
        msg_load_ok(shown, d.num_stored)
    } else {
        msg_load_failed(shown, (d.num_parsed - d.num_stored) as nat)
    }
}

/// The counts line heading the report.
pub open spec fn counts_line(num_files: nat, num_errors: nat, num_warnings: nat) -> Seq<char> {
    dec_chars(num_files) + " files processed / "@ + dec_chars(num_errors) + " Errors / "@
        + dec_chars(num_warnings) + " Warnings"@
}

/// The whole report, line by line, in its fixed order: the heading and the
/// counts, one status line per source in enumeration order, then the full
/// error detail, then the full warning detail.
pub open spec fn spec_report_lines(r: RunReportV) -> Seq<Seq<char>> {
    seq!["csv-to results"@, "-------------------"@, counts_line(
        r.num_files,
        r.errors.len(),
        r.warnings.len(),
    )] + r.results.map_values(|d: DBResultsV| status_line(d, r.using_single_table)) + (
    if r.errors.len() > 0 {
        seq!["Error Details"@, "-------------"@] + r.errors
    } else {
        Seq::<Seq<char>>::empty()
    }) + (if r.warnings.len() > 0 {
        seq!["Warning Details"@, "-------------"@] + r.warnings
    } else {
        Seq::<Seq<char>>::empty()
    })
}

/// Renders a run report as its lines, in the fixed report order.
pub fn report_lines(report: &RunReport) -> (lines: Vec<String>)
    requires
        forall|i: int|
            0 <= i < report.results@.len() ==> (#[trigger] report.results@[i]).num_stored
                <= report.results@[i].num_parsed,
    ensures
        lines.deep_view() == spec_report_lines(report@),
{
    let ghost rv = report@;
    let mut lines: Vec<String> = Vec::new();
    push_dv(&mut lines, "csv-to results".to_owned());
    push_dv(&mut lines, "-------------------".to_owned());
    let mut cl = usize_to_string(report.num_files);
    cl.append(" files processed / ");
    let ne = usize_to_string(report.errors.len());
    cl.append(ne.as_str());
    cl.append(" Errors / ");
    let nw = usize_to_string(report.warnings.len());
    cl.append(nw.as_str());
    cl.append(" Warnings");
    proof {
        assert(cl@ =~= counts_line(rv.num_files, rv.errors.len(), rv.warnings.len()));
    }
    push_dv(&mut lines, cl);
    let ghost head = seq!["csv-to results"@, "-------------------"@, counts_line(
        rv.num_files,
        rv.errors.len(),
        rv.warnings.len(),
    )];
    proof {
        assert(lines.deep_view() =~= head);
    }
    let ghost statuses = rv.results.map_values(
        |d: DBResultsV| status_line(d, rv.using_single_table),
    );
    let n = report.results.len();
    let mut i: usize = 0;
    while i < n
        invariant
            i <= n,
            n == report.results@.len(),
            rv == report@,
            statuses == rv.results.map_values(
                |d: DBResultsV| status_line(d, rv.using_single_table),
            ),
            head == seq!["csv-to results"@, "-------------------"@, counts_line(
                rv.num_files,
                rv.errors.len(),
                rv.warnings.len(),
            )],
            forall|k: int|
                0 <= k < report.results@.len() ==> (#[trigger] report.results@[k]).num_stored
                    <= report.results@[k].num_parsed,
            lines.deep_view() == head + statuses.take(i as int),
        decreases n - i,
    {
        let r = &report.results[i];
        let line = match r.get_results(report.using_single_table) {
            Ok(m) => m,
            Err(m) => m,
        };
        proof {
            assert(line@ == status_line(rv.results[i as int], rv.using_single_table));
            assert(head + statuses.take(i + 1) =~= (head + statuses.take(i as int)).push(
                statuses[i as int],
            ));
        }
        push_dv(&mut lines, line);
        i += 1;
    }
    proof {
        assert(statuses.take(n as int) =~= statuses);
    }
    if report.errors.len() > 0 {
        push_dv(&mut lines, "Error Details".to_owned());
        push_dv(&mut lines, "-------------".to_owned());
        append_strings(&mut lines, &report.errors);
    }
    let ghost with_errors = head + statuses + (if rv.errors.len() > 0 {
        seq!["Error Details"@, "-------------"@] + rv.errors
    } else {
        Seq::<Seq<char>>::empty()
    });
    proof {
        assert(lines.deep_view() =~= with_errors);
    }
    if report.warnings.len() > 0 {
        push_dv(&mut lines, "Warning Details".to_owned());
        push_dv(&mut lines, "-------------".to_owned());
        append_strings(&mut lines, &report.warnings);
    }
    proof {
        assert(lines.deep_view() =~= spec_report_lines(rv));
    }
    lines
}

/// DbApp manages the creation and loading of the database. It owns the
/// configuration and the three capability boundaries for the whole run.
pub struct DbApp<I, J, S> where I: InputService, J: CacheService, S: StorageService {
    pub config_svc: Config,
    pub input_svc: I,
    pub cache_svc: J,
    pub storage_svc: S,
}

impl<I, J, S> DbApp<I, J, S> where I: InputService, J: CacheService, S: StorageService {
    /// Creates an instance of the DbApp struct.
    pub fn new(config_svc: Config, input_svc: I, cache_svc: J, storage_svc: S) -> (r: DbApp<
        I,
        J,
        S,
    >)
        ensures
            r.config_svc == config_svc,
            r.input_svc == input_svc,
            r.cache_svc == cache_svc,
            r.storage_svc == storage_svc,
    {
        DbApp { config_svc, input_svc, cache_svc, storage_svc }
    }

    /// The table a source is loaded into: the configured single-table name
    /// verbatim when one is given, otherwise the name derived from the
    /// file name.
    pub fn get_table_name(&self, file_path: &str) -> (r: String)
        ensures
            r@ == table_for(self.config_svc@, file_path@),
    {
        match &self.config_svc.single_table {
            Some(table_name) => table_name.clone(),
            None => derive_table_name(file_path),
        }
    }

    /// Builds the insertion plan and streams the rows through it; on
    /// success the outcome records how many rows the store accepted, which
    /// never exceeds the rows handed over.
    fn store(
        &mut self,
        name: String,
        file_name: String,
        records_parsed: usize,
        columns: Vec<ColumnDef>,
        content: Vec<Vec<String>>,
    ) -> (r: Result<DBResults, StoreError>)
        ensures
            final(self).config_svc == old(self).config_svc,
            final(self).input_svc == old(self).input_svc,
            final(self).cache_svc == old(self).cache_svc,
            r matches Ok(res) ==> res@ == (DBResultsV {
                name: name@,
                file_name: file_name@,
                num_parsed: records_parsed as nat,
                num_stored: res.num_stored as nat,
            }) && res.num_stored <= content@.len(),
    {
        let insert_stmt = self.storage_svc.create_insert_stmt(name.clone(), clone_columns(&columns));
        match self.storage_svc.store_data(columns, content, insert_stmt) {
            Ok(records_inserted) => Ok(
                DBResults::new(name, file_name, records_parsed, records_inserted),
            ),
            Err(e) => Err(e),
        }
    }

    /// Executes the application logic: every source is parsed, inferred,
    /// reconciled against the table lifecycle, loaded and recorded, with a
    /// failure of one source never preventing the processing of the next;
    /// at the end the accumulated cache is persisted when so configured.
    /// The report matches the run-state fold over some well-formed outcome
    /// sequence with one outcome per source.
    pub fn run(self) -> (report: RunReport)
        ensures
            report.using_single_table == (self.config_svc@.single_table is Some),
            report.cache.name@ == self.config_svc@.name,
            report.cache.cache_type == CacheType::Db,
            report.cache_write_error is Some ==> self.config_svc.save_cache,
            !self.config_svc.save_cache ==> report.cache.definitions@.len() == 0,
            self.config_svc@.single_table is Some ==> report.cache.definitions@.len() <= 1,
            forall|i: int|
                0 <= i < report.results@.len() ==> (#[trigger] report.results@[i]).num_stored
                    <= report.results@[i].num_parsed,
            exists|t: Seq<SourceOutcome>|
                {
                    &&& #[trigger] trace_wf(t)
                    &&& t.len() == self.config_svc.sources@.len()
                    &&& report_matches(report@, run_state(self.config_svc@, t))
                },
    {
        let mut this = self;
        let ghost cfg = this.config_svc@;
        let mut errors: Vec<String> = Vec::new();
        let mut warnings: Vec<String> = Vec::new();
        let mut results: Vec<DBResults> = Vec::new();

        let mut cache: Cache = Cache::new(this.config_svc.name.clone(), CacheType::Db);
        let save_cache = this.config_svc.save_cache;
        let mut have_added_cache = false;

        let using_single_table = this.config_svc.single_table.is_some();
        let keep_tables_delete_data = this.config_svc.delete_data;
        let drop_stores = this.config_svc.drop_stores;
        let mut need_to_create_single_table = using_single_table;

        let ghost mut tr: Seq<SourceOutcome> = Seq::empty();
        let n = this.config_svc.sources.len();
        let mut num_files: usize = 0;
        let mut idx: usize = 0;
        proof {
            assert(results.deep_view() =~= run_state(cfg, tr).results);
            assert(errors.deep_view() =~= run_state(cfg, tr).errors);
            assert(warnings.deep_view() =~= run_state(cfg, tr).warnings);
            assert(cache.definitions.deep_view() =~= run_state(cfg, tr).cache_defs);
        }
        while idx < n
            invariant
                idx <= n,
                n == this.config_svc.sources@.len(),
                this.config_svc == self.config_svc,
                cfg == self.config_svc@,
                tr.len() == idx,
                trace_wf(tr),
                num_files <= idx,
                results.deep_view() == run_state(cfg, tr).results,
                errors.deep_view() == run_state(cfg, tr).errors,
                warnings.deep_view() == run_state(cfg, tr).warnings,
                num_files == run_state(cfg, tr).num_files,
                cache.definitions.deep_view() == run_state(cfg, tr).cache_defs,
                need_to_create_single_table == run_state(cfg, tr).need_create,
                have_added_cache == run_state(cfg, tr).have_added_cache,
                cache.name@ == cfg.name,
                cache.cache_type == CacheType::Db,
                using_single_table == (cfg.single_table is Some),
                keep_tables_delete_data == cfg.delete_data,
                drop_stores == cfg.drop_stores,
                save_cache == cfg.save_cache,
                save_cache == self.config_svc.save_cache,
                !save_cache ==> cache.definitions@.len() == 0,
                cache.definitions@.len() == cache.definitions.deep_view().len(),
                forall|i: int|
                    0 <= i < results@.len() ==> (#[trigger] results@[i]).num_stored
                        <= results@[i].num_parsed,
            decreases n - idx,
        {
            let ghost st0 = run_state(cfg, tr);
            let ghost mut o: SourceOutcome = SourceOutcome::ParseFailed { error: Seq::empty() };
            let input = this.config_svc.sources[idx].clone();
            match this.input_svc.parse(input) {
                Err(e) => {
                    let m = build_msg_parse_error(e.message.as_str());
                    push_dv(&mut errors, m);
                    num_files += 1;
                    proof {
                        o = SourceOutcome::ParseFailed { error: e.message@ };
                    }
                },
                Ok(mut pc) => {
                    let ghost file_name_v = pc.file_name@;
                    let ghost content_v = pc.content.deep_view();
                    let ghost parse_errors_v = pc.errors.deep_view();
                    let ghost records_parsed_v = pc.records_parsed as nat;
                    append_strings(&mut errors, &pc.errors);
                    if pc.records_parsed == 0 {
                        let w = build_msg_not_csv(pc.file_name.as_str());
                        push_dv(&mut warnings, w);
                    }
                    pc.set_column_data_types();
                    let ghost names_v = pc.columns.deep_view().map_values(
                        |c: crate::models::ColumnDefV| c.name,
                    );
                    proof {
                        assert(pc.columns.deep_view() =~= inferred_columns(names_v, content_v));
                    }
                    let table_name = this.get_table_name(pc.file_name.as_str());
                    let ghost table_v = table_name@;

                    let mut proceed = true;
                    let ghost mut create_res: Result<(), Seq<char>> = Ok(());
                    let ghost mut delete_res: Result<(), Seq<char>> = Ok(());
                    let ghost mut store_res: Result<nat, Seq<char>> = Ok(0nat);

                    if !keep_tables_delete_data {
                        if !using_single_table || need_to_create_single_table {
                            match this.storage_svc.create_store(
                                table_name.clone(),
                                clone_columns(&pc.columns),
                                drop_stores,
                            ) {
                                Err(e) => {
                                    let m = build_msg_create_failed(
                                        table_name.as_str(),
                                        e.message.as_str(),
                                    );
                                    push_dv(&mut errors, m);
                                    proceed = false;
                                    proof {
                                        create_res = Err(e.message@);
                                    }
                                },
                                Ok(_) => {
                                    need_to_create_single_table = false;
                                },
                            }
                        }
                    } else {
                        match this.storage_svc.delete_data_in_table(table_name.clone()) {
                            Err(e) => {
                                let m = build_msg_delete_failed(
                                    table_name.as_str(),
                                    e.message.as_str(),
                                );
                                push_dv(&mut errors, m);
                                proceed = false;
                                proof {
                                    delete_res = Err(e.message@);
                                }
                            },
                            Ok(_) => {},
                        }
                    }
                    if proceed {
                        let file_name_exec = pc.file_name.clone();
                        let cols_for_store = clone_columns(&pc.columns);
                        let records_parsed = pc.records_parsed;
                        let content = pc.content;
                        match this.store(
                            table_name.clone(),
                            file_name_exec,
                            records_parsed,
                            cols_for_store,
                            content,
                        ) {
                            Ok(result) => {
                                proof {
                                    store_res = Ok(result.num_stored as nat);
                                }
                                push_dv(&mut results, result);
                            },
                            Err(e) => {
                                proof {
                                    store_res = Err(e.message@);
                                }
                                push_dv(&mut errors, e.message);
                            },
                        }
                        if save_cache && (!using_single_table || !have_added_cache) {
                            let dd = DataDefinition::new(table_name, clone_columns(&pc.columns));
                            cache.add_data_definition(dd);
                            have_added_cache = true;
                        }
                        num_files += 1;
                    }
                    proof {
                        o = SourceOutcome::Parsed {
                            file_name: file_name_v,
                            column_names: names_v,
                            content: content_v,
                            records_parsed: records_parsed_v,
                            parse_errors: parse_errors_v,
                            create_result: create_res,
                            delete_result: delete_res,
                            store_result: store_res,
                        };
                    }
                },
            }
            proof {
                let tr0 = tr;
                tr = tr.push(o);
                assert(tr.drop_last() =~= tr0);
                assert(tr.last() == o);
                assert(run_state(cfg, tr) == step_state(cfg, st0, o));
                assert forall|i: int| 0 <= i < tr.len() implies outcome_wf(#[trigger] tr[i]) by {
                    if i < tr0.len() {
                        assert(tr[i] == tr0[i]);
                    } else {
                        assert(tr[i] == o);
                    }
                }
            }
            idx += 1;
        }
        let cache_write_error: Option<String> = if save_cache {
            match this.cache_svc.write(&cache) {
                Err(e) => Some(e.message),
                Ok(_) => None,
            }
        } else {
            None
        };
        let report = RunReport {
            results,
            errors,
            warnings,
            num_files,
            using_single_table,
            cache,
            cache_write_error,
        };
        proof {
            if cfg.single_table is Some {
                crate::model::lemma_single_table_cache_bounded(cfg, tr);
            }
            assert(trace_wf(tr) && tr.len() == self.config_svc.sources@.len() && report_matches(
                report@,
                run_state(self.config_svc@, tr),
            ));
        }
        report
    }
}

} // verus!
