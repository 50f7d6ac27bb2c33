//! The run as mathematics: one source is summarised by a `SourceOutcome`
//! (what the parser and the store answered), and a whole run is a fold of
//! `step_state` over the outcomes, in enumeration order. The orchestrator's
//! `run` returns a report that matches this fold for some well-formed
//! outcome sequence; the laws at the bottom hold of the fold for every
//! outcome sequence.

use vstd::prelude::*;

use crate::cache::DataDefinitionV;
use crate::db::{
    msg_create_failed, msg_delete_failed, msg_not_csv, msg_parse_error, DBResultsV,
};
use crate::inference::{column_cells, column_type};
use crate::models::ColumnDefV;
use crate::names::derived_table_name;
use crate::ConfigV;

verus! {

/// What the external collaborators answered for one source: either the
/// parser refused the whole source, or it delivered rows and the storage
/// calls each had an outcome (each storage answer is only consulted where
/// the lifecycle decision actually makes that call).
pub enum SourceOutcome {
    ParseFailed { error: Seq<char> },
    Parsed {
        file_name: Seq<char>,
        column_names: Seq<Seq<char>>,
        content: Seq<Seq<Seq<char>>>,
        records_parsed: nat,
        parse_errors: Seq<Seq<char>>,
        create_result: Result<(), Seq<char>>,
        delete_result: Result<(), Seq<char>>,
        store_result: Result<nat, Seq<char>>,
    },
}

/// A table-lifecycle or load call made against the storage boundary.
pub enum TableAction {
    Create { table: Seq<char>, drop_first: bool },
    DeleteData { table: Seq<char> },
    Insert { table: Seq<char> },
}

/// The orchestrator's run-scoped state after some prefix of the sources.
pub struct RunState {
    pub results: Seq<DBResultsV>,
    pub errors: Seq<Seq<char>>,
    pub warnings: Seq<Seq<char>>,
    pub num_files: nat,
    pub cache_defs: Seq<DataDefinitionV>,
    pub need_create: bool,
    pub have_added_cache: bool,
    pub actions: Seq<TableAction>,
}

/// A well-formed outcome: the parser never hands over more rows than it
/// counted, and the store never reports more stored rows than it was given.
pub open spec fn outcome_wf(o: SourceOutcome) -> bool {
    match o {
        SourceOutcome::ParseFailed { .. } => true,
        SourceOutcome::Parsed { content, records_parsed, store_result, .. } => {
            &&& content.len() <= records_parsed
            &&& match store_result {
                Ok(n) => n <= content.len(),
                Err(_) => true,
            }
        },
    }
}

/// Every outcome of the sequence is well-formed.
pub open spec fn trace_wf(t: Seq<SourceOutcome>) -> bool {
    forall|i: int| 0 <= i < t.len() ==> outcome_wf(#[trigger] t[i])
}

/// The table a source is loaded into: the explicit single-table name when
/// one is configured, otherwise the name derived from the file name.
pub open spec fn table_for(cfg: ConfigV, file_name: Seq<char>) -> Seq<char> {
    match cfg.single_table {
        Option::Some(t) => t,
        Option::None => derived_table_name(file_name),
    }
}

/// The columns of a source after schema inference: the parsed names, each
/// with the type inferred from the column's values.
pub open spec fn inferred_columns(
    column_names: Seq<Seq<char>>,
    content: Seq<Seq<Seq<char>>>,
) -> Seq<ColumnDefV> {
    Seq::new(
        column_names.len(),
        |j: int| ColumnDefV { name: column_names[j], data_type: column_type(column_cells(content, j)) },
    )
}

/// The state before any source was processed. In single-table mode the one
/// shared table still needs to be created.
pub open spec fn init_state(cfg: ConfigV) -> RunState {
    RunState {
        results: Seq::empty(),
        errors: Seq::empty(),
        warnings: Seq::empty(),
        num_files: 0,
        cache_defs: Seq::empty(),
        need_create: cfg.single_table is Some,
        have_added_cache: false,
        actions: Seq::empty(),
    }
}

/// The tail of one source's processing, once its table is ready: the load
/// call, the per-source result or error, the counted file, and the cache
/// accumulation (one definition per source, but only one in all when a
/// single table is shared).
pub open spec fn loaded_state(
    cfg: ConfigV,
    st: RunState,
    errors1: Seq<Seq<char>>,
    warnings1: Seq<Seq<char>>,
    actions1: Seq<TableAction>,
    need_create1: bool,
    table: Seq<char>,
    file_name: Seq<char>,
    records_parsed: nat,
    cols: Seq<ColumnDefV>,
    store_result: Result<nat, Seq<char>>,
) -> RunState {
    let actions2 = actions1.push(TableAction::Insert { table });
    let results2 = match store_result {
        Ok(n) => st.results.push(
            DBResultsV { name: table, file_name, num_parsed: records_parsed, num_stored: n },
        ),
        Err(_) => st.results,
    };
    let errors2 = match store_result {
        Ok(_) => errors1,
        Err(e) => errors1.push(e),
    };
    let add_cache = cfg.save_cache && (!(cfg.single_table is Some) || !st.have_added_cache);
    RunState {
        results: results2,
        errors: errors2,
        warnings: warnings1,
        num_files: st.num_files + 1,
        cache_defs: if add_cache {
            st.cache_defs.push(DataDefinitionV { table_name: table, columns: cols })
        } else {
            st.cache_defs
        },
        need_create: need_create1,
        have_added_cache: st.have_added_cache || add_cache,
        actions: actions2,
    }
}

/// One source's effect on the run state. A parse failure is recorded and
/// the source still counts as processed. A parsed source first reports its
/// row-level parse errors and a warning when it carried no records; then
/// the lifecycle decision is made: delete the rows of the kept table when
/// so configured, create the table otherwise — except in single-table mode
/// after the shared table exists. A lifecycle failure skips the source
/// (it is not counted); otherwise the rows are loaded.
pub open spec fn step_state(cfg: ConfigV, st: RunState, o: SourceOutcome) -> RunState {
    match o {
        SourceOutcome::ParseFailed { error } => RunState {
            errors: st.errors.push(msg_parse_error(error)),
            num_files: st.num_files + 1,
            ..st
        },
        SourceOutcome::Parsed {
            file_name,
            column_names,
            content,
            records_parsed,
            parse_errors,
            create_result,
            delete_result,
            store_result,
        } => {
            let errors1 = st.errors + parse_errors;
            let warnings1 = if records_parsed == 0 {
                st.warnings.push(msg_not_csv(file_name))
            } else {
                st.warnings
            };
            let table = table_for(cfg, file_name);
            let cols = inferred_columns(column_names, content);
            if cfg.delete_data {
                let actions1 = st.actions.push(TableAction::DeleteData { table });
                match delete_result {
                    Err(e) => RunState {
                        errors: errors1.push(msg_delete_failed(table, e)),
                        warnings: warnings1,
                        actions: actions1,
                        ..st
                    },
                    Ok(_) => loaded_state(
                        cfg,
                        st,
                        errors1,
                        warnings1,
                        actions1,
                        st.need_create,
                        table,
                        file_name,
                        records_parsed,
                        cols,
                        store_result,
                    ),
                }
            } else if !(cfg.single_table is Some) || st.need_create {
                let actions1 = st.actions.push(
                    TableAction::Create { table, drop_first: cfg.drop_stores },
                );
                match create_result {
                    Err(e) => RunState {
                        errors: errors1.push(msg_create_failed(table, e)),
                        warnings: warnings1,
                        actions: actions1,
                        ..st
                    },
                    Ok(_) => loaded_state(
                        cfg,
                        st,
                        errors1,
                        warnings1,
                        actions1,
                        false,
                        table,
                        file_name,
                        records_parsed,
                        cols,
                        store_result,
                    ),
                }
            } else {
                loaded_state(
                    cfg,
                    st,
                    errors1,
                    warnings1,
                    st.actions,
                    st.need_create,
                    table,
                    file_name,
                    records_parsed,
                    cols,
                    store_result,
                )
            }
        },
    }
}

/// The run state after a whole outcome sequence, in order.
pub open spec fn run_state(cfg: ConfigV, t: Seq<SourceOutcome>) -> RunState
    decreases t.len(),
{
    if t.len() == 0 {
        init_state(cfg)
    } else {
        step_state(cfg, run_state(cfg, t.drop_last()), t.last())
    }
}

/// An outcome in which nothing failed: the source parsed and every storage
/// call answered success.
pub open spec fn outcome_all_ok(o: SourceOutcome) -> bool {
    match o {
        SourceOutcome::ParseFailed { .. } => false,
        SourceOutcome::Parsed { create_result, delete_result, store_result, .. } => {
            &&& create_result is Ok
            &&& delete_result is Ok
            &&& store_result is Ok
        },
    }
}

/// Every outcome of the sequence succeeded.
pub open spec fn trace_all_ok(t: Seq<SourceOutcome>) -> bool {
    forall|i: int| 0 <= i < t.len() ==> outcome_all_ok(#[trigger] t[i])
}

/// How many create-table actions a run issued.
pub open spec fn count_creates(acts: Seq<TableAction>) -> nat
    decreases acts.len(),
{
    if acts.len() == 0 {
        0
    } else {
        count_creates(acts.drop_last()) + if acts.last() is Create {
            1nat
        } else {
            0nat
        }
    }
}

proof fn lemma_count_creates_push(acts: Seq<TableAction>, a: TableAction)
    ensures
        count_creates(acts.push(a)) == count_creates(acts) + if a is Create {
            1nat
        } else {
            0nat
        },
{
    assert(acts.push(a).drop_last() =~= acts);
}

/// For every source whose rows were loaded, the stored count never exceeds
/// the parsed count; a run's results can therefore always be classified.
pub proof fn lemma_records_stored_bounded(cfg: ConfigV, t: Seq<SourceOutcome>)
    requires
        trace_wf(t),
    ensures
        forall|i: int|
            0 <= i < run_state(cfg, t).results.len() ==> (#[trigger] run_state(
                cfg,
                t,
            ).results[i]).num_stored <= run_state(cfg, t).results[i].num_parsed,
    decreases t.len(),
{
    if t.len() > 0 {
        let pre = t.drop_last();
        let o = t.last();
        assert(forall|i: int| 0 <= i < pre.len() ==> pre[i] == t[i]);
        assert(outcome_wf(o));
        lemma_records_stored_bounded(cfg, pre);
        let st = run_state(cfg, pre);
        let st2 = run_state(cfg, t);
        assert(st2 == step_state(cfg, st, o));
        assert forall|i: int| 0 <= i < st2.results.len() implies (#[trigger] st2.results[i]).num_stored
            <= st2.results[i].num_parsed by {
            if i < st.results.len() {
                assert(st2.results[i] == st.results[i]);
            }
        }
    }
}

/// In single-table mode every run issues exactly one create-table action —
/// on the first source — and, with caching enabled, adds exactly one schema
/// definition to the cache, however many sources follow.
pub proof fn lemma_single_table_creates_once(cfg: ConfigV, t: Seq<SourceOutcome>)
    requires
        cfg.single_table is Some,
        !cfg.delete_data,
        trace_all_ok(t),
        t.len() >= 1,
    ensures
        count_creates(run_state(cfg, t).actions) == 1,
        run_state(cfg, t).actions.len() >= 1,
        run_state(cfg, t).actions[0] is Create,
        cfg.save_cache ==> run_state(cfg, t).cache_defs.len() == 1,
        !cfg.save_cache ==> run_state(cfg, t).cache_defs.len() == 0,
    decreases t.len(),
{
    lemma_single_table_trace(cfg, t);
}

proof fn lemma_single_table_trace(cfg: ConfigV, t: Seq<SourceOutcome>)
    requires
        cfg.single_table is Some,
        !cfg.delete_data,
        trace_all_ok(t),
    ensures
        run_state(cfg, t).need_create == (t.len() == 0),
        count_creates(run_state(cfg, t).actions) == if t.len() == 0 {
            0nat
        } else {
            1nat
        },
        run_state(cfg, t).cache_defs.len() == if cfg.save_cache && t.len() > 0 {
            1nat
        } else {
            0nat
        },
        run_state(cfg, t).have_added_cache == (cfg.save_cache && t.len() > 0),
        t.len() > 0 ==> run_state(cfg, t).actions.len() >= 1 && run_state(
            cfg,
            t,
        ).actions[0] is Create,
    decreases t.len(),
{
    if t.len() > 0 {
        let pre = t.drop_last();
        let o = t.last();
        assert(forall|i: int| 0 <= i < pre.len() ==> pre[i] == t[i]);
        assert(outcome_all_ok(o));
        lemma_single_table_trace(cfg, pre);
        let st = run_state(cfg, pre);
        match o {
            SourceOutcome::ParseFailed { .. } => {
                assert(false);
            },
            SourceOutcome::Parsed { file_name, .. } => {
                let table = table_for(cfg, file_name);
                if st.need_create {
                    let acts1 = st.actions.push(
                        TableAction::Create { table, drop_first: cfg.drop_stores },
                    );
                    lemma_count_creates_push(
                        st.actions,
                        TableAction::Create { table, drop_first: cfg.drop_stores },
                    );
                    lemma_count_creates_push(acts1, TableAction::Insert { table });
                } else {
                    lemma_count_creates_push(st.actions, TableAction::Insert { table });
                }
            },
        }
    }
}

/// In single-table mode the cache never holds more than one definition,
/// whatever failed or succeeded along the run.
pub proof fn lemma_single_table_cache_bounded(cfg: ConfigV, t: Seq<SourceOutcome>)
    requires
        cfg.single_table is Some,
    ensures
        run_state(cfg, t).cache_defs.len() <= 1,
        run_state(cfg, t).have_added_cache == (run_state(cfg, t).cache_defs.len() == 1),
    decreases t.len(),
{
    if t.len() > 0 {
        lemma_single_table_cache_bounded(cfg, t.drop_last());
    }
}

/// Whether the action at `i`, when it is a load, directly follows a
/// delete-all-rows action against the same table.
pub open spec fn insert_preceded_by_delete(acts: Seq<TableAction>, i: int) -> bool {
    match acts[i] {
        TableAction::Insert { table } => 1 <= i && acts[i - 1] == (TableAction::DeleteData {
            table,
        }),
        _ => true,
    }
}

/// With `delete_data_keep_table` enabled no run ever issues a create-table
/// action, and a delete-all-rows action against the target table precedes
/// every load.
pub proof fn lemma_delete_mode_actions(cfg: ConfigV, t: Seq<SourceOutcome>)
    requires
        cfg.delete_data,
    ensures
        forall|i: int|
            0 <= i < run_state(cfg, t).actions.len() ==> !((#[trigger] run_state(
                cfg,
                t,
            ).actions[i]) is Create),
        forall|i: int|
            0 <= i < run_state(cfg, t).actions.len() ==> insert_preceded_by_delete(
                run_state(cfg, t).actions,
                i,
            ),
    decreases t.len(),
{
    if t.len() > 0 {
        let pre = t.drop_last();
        let o = t.last();
        lemma_delete_mode_actions(cfg, pre);
        let st = run_state(cfg, pre);
        let st2 = run_state(cfg, t);
        assert(st2 == step_state(cfg, st, o));
        let acts = st2.actions;
        match o {
            SourceOutcome::ParseFailed { .. } => {
                assert forall|i: int| 0 <= i < acts.len() implies !((#[trigger] acts[i]) is Create)
                    && insert_preceded_by_delete(acts, i) by {
                    assert(acts[i] == st.actions[i]);
                    assert(insert_preceded_by_delete(st.actions, i));
                    if 1 <= i {
                        assert(acts[i - 1] == st.actions[i - 1]);
                    }
                }
            },
            SourceOutcome::Parsed { file_name, delete_result, .. } => {
                let table = table_for(cfg, file_name);
                let a1 = st.actions.push(TableAction::DeleteData { table });
                assert forall|i: int| 0 <= i < acts.len() implies !((#[trigger] acts[i]) is Create)
                    && insert_preceded_by_delete(acts, i) by {
                    if i < st.actions.len() {
                        assert(acts[i] == st.actions[i]);
                        assert(insert_preceded_by_delete(st.actions, i));
                        if 1 <= i {
                            assert(acts[i - 1] == st.actions[i - 1]);
                        }
                    } else if i == st.actions.len() {
                        assert(acts[i] == (TableAction::DeleteData { table }));
                    } else {
                        assert(acts[i] == (TableAction::Insert { table }));
                        assert(acts[i - 1] == (TableAction::DeleteData { table }));
                    }
                }
            },
        }
    }
}

/// A source that parses but yields zero records produces exactly one
/// warning and no error, and still counts among the processed files, when
/// its storage calls succeed.
pub proof fn lemma_empty_source_one_warning(
    cfg: ConfigV,
    st: RunState,
    file_name: Seq<char>,
    column_names: Seq<Seq<char>>,
)
    ensures
        ({
            let o = SourceOutcome::Parsed {
                file_name,
                column_names,
                content: Seq::empty(),
                records_parsed: 0,
                parse_errors: Seq::empty(),
                create_result: Ok(()),
                delete_result: Ok(()),
                store_result: Ok(0nat),
            };
            let st2 = step_state(cfg, st, o);
            &&& st2.warnings == st.warnings.push(msg_not_csv(file_name))
            &&& st2.errors == st.errors
            &&& st2.num_files == st.num_files + 1
            &&& st2.results.len() == st.results.len() + 1
        }),
{
    assert(st.errors + Seq::<Seq<char>>::empty() =~= st.errors);
}

} // verus!
