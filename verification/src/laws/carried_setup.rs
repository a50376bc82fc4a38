//! Preparing a database as it is carried out: each statement has the effect that its text
//! tells of, and the answers go into the replies.

use vstd::prelude::*;

use crate::laws::preparing::{law_prepare_reaches, law_search_reaches, prepare, Preparation};
use crate::laws::sql::{
    cell_in, create_over, create_sql, index_sql, key_columns, lemma_create, lemma_index,
    lemma_migrate_episode, lemma_migrate_movie, lemma_search, migrate_over, migrate_sql, named,
    search_sql, share, Column,
};
use crate::media::Table;
use crate::setup::{
    column_exists, columns_query, create_tables, migrate_episode_table, migrate_movie_table,
    prepare_db, search_start, table_name, Change, ChangeSent, ColumnSearch, SetupStep,
    TableSearch, WarningDue,
};
use crate::store::{distinct_ids, migrated, unique, LegacyRecord, Record, Store, TableState};

verus! {

/// The SQL of each change is the one for that change and table, and it is a batch exactly if
/// it is a migration.
pub proof fn law_change_sql(
    table: Table,
    create: &'static str,
    migrate: &'static str,
    index: &'static str,
    pragma: &'static str,
    change: Change,
    batch: bool,
)
    requires
        call_ensures(Change::sql, (Change::CreateTable(table),), create),
        call_ensures(Change::sql, (Change::MigrateTable(table),), migrate),
        call_ensures(Change::sql, (Change::CreateIndex(table),), index),
        call_ensures(Change::sql, (Change::EnableForeignKeys,), pragma),
        call_ensures(Change::is_batch, (change,), batch),
    ensures
        create@ == create_sql(table),
        migrate@ == migrate_sql(table),
        index@ == index_sql(table),
        pragma@ == "PRAGMA foreign_keys = ON"@,
        batch <==> change == Change::MigrateTable(Table::Movies) || change
            == Change::MigrateTable(Table::Episodes),
{
    lemma_create();
    lemma_migrate_movie();
    lemma_migrate_episode();
    lemma_index();
}

/// The migrations can be had by themselves.
pub proof fn law_migrations(movies: &'static str, episodes: &'static str)
    requires
        call_ensures(migrate_movie_table, (), movies),
        call_ensures(migrate_episode_table, (), episodes),
    ensures
        movies@ == migrate_sql(Table::Movies),
        episodes@ == migrate_sql(Table::Episodes),
{
    lemma_migrate_movie();
    lemma_migrate_episode();
}

/// Two records have the columns of the key in common exactly if they have the medium, the
/// language code and the action in common.
pub proof fn law_only_the_key_is_unique(a: Record, b: Record)
    ensures
        share(a, b, key_columns()) <==> a.media_id == b.media_id && a.language_code
            == b.language_code && a.action == b.action,
{
    let columns = key_columns();
    if share(a, b, columns) {
        assert(cell_in(a, columns[0]) == cell_in(b, columns[0]));
        assert(cell_in(a, columns[1]) == cell_in(b, columns[1]));
        assert(cell_in(a, columns[2]) == cell_in(b, columns[2]));
    }
}

/// This is whether a table of these rows, made by this text, admits a record under a new row
/// id: its constraint of uniqueness decides.
pub open spec fn admits(
    table: Table,
    text: Seq<char>,
    rows: Seq<Record>,
    record: Record,
    admitted: bool,
) -> bool {
    forall|columns: Seq<Column>|
        #![trigger create_over(table, columns)]
        #![trigger migrate_over(table, columns)]
        text == create_over(table, columns) || text == migrate_over(table, columns) ==> (admitted
            <==> !exists|k: int|
            0 <= k < rows.len() && share(#[trigger] rows[k], record, columns))
}

/// Some row is about the same medium, language code and action as a record.
pub open spec fn is_there(rows: Seq<Record>, record: Record) -> bool {
    exists|k: int|
        0 <= k < rows.len() && (#[trigger] rows[k]).media_id == record.media_id
            && rows[k].language_code == record.language_code && rows[k].action == record.action
}

proof fn lemma_admits(
    table: Table,
    text: Seq<char>,
    rows: Seq<Record>,
    record: Record,
    admitted: bool,
)
    requires
        text == create_sql(table) || text == migrate_sql(table),
        admits(table, text, rows, record, admitted),
    ensures
        admitted <==> !is_there(rows, record),
{
    let columns = key_columns();
    assert(text == create_over(table, columns) || text == migrate_over(table, columns));
    assert forall|k: int| 0 <= k < rows.len() implies (share(#[trigger] rows[k], record, columns)
        <==> (rows[k].media_id == record.media_id && rows[k].language_code == record.language_code
        && rows[k].action == record.action)) by {
        law_only_the_key_is_unique(rows[k], record);
    }
    if is_there(rows, record) {
        let k = choose|k: int|
            0 <= k < rows.len() && (#[trigger] rows[k]).media_id == record.media_id
                && rows[k].language_code == record.language_code && rows[k].action
                == record.action;
        assert(share(rows[k], record, columns));
    }
}

/// A table that is created, and one that a migration builds, admits a record exactly if there
/// is none of the same medium, language code and action.
pub proof fn law_new_record_is_admitted(
    table: Table,
    rows: Seq<Record>,
    record: Record,
    create: &'static str,
    admitted_by_created: bool,
    migrate: &'static str,
    admitted_by_migrated: bool,
)
    requires
        call_ensures(Change::sql, (Change::CreateTable(table),), create),
        admits(table, create@, rows, record, admitted_by_created),
        call_ensures(Change::sql, (Change::MigrateTable(table),), migrate),
        admits(table, migrate@, rows, record, admitted_by_migrated),
    ensures
        admitted_by_created <==> !is_there(rows, record),
        admitted_by_migrated <==> !is_there(rows, record),
{
    lemma_create();
    lemma_migrate_movie();
    lemma_migrate_episode();
    lemma_admits(table, create@, rows, record, admitted_by_created);
    lemma_admits(table, migrate@, rows, record, admitted_by_migrated);
}

/// The effect of a statement, by its text: whether it is carried out, and the database after
/// it. A text of several statements is carried out as a whole only as a batch.
pub open spec fn has_effect(
    store: Store,
    sql: Seq<char>,
    batch: bool,
    made: bool,
    after: Store,
) -> bool {
    &&& sql == "PRAGMA foreign_keys = ON"@ ==> made && after == (Store {
        foreign_keys: true,
        ..store
    })
    &&& forall|table: Table|
        sql == #[trigger] create_sql(table) ==> made && after == store.changed(
            Change::CreateTable(table),
        )
    &&& forall|table: Table|
        sql == #[trigger] migrate_sql(table) && batch ==> made == store.accepts(
            Change::MigrateTable(table),
        ) && after == store.changed(Change::MigrateTable(table))
    &&& forall|table: Table|
        sql == #[trigger] index_sql(table) ==> made == store.accepts(Change::CreateIndex(table))
            && after == store.changed(Change::CreateIndex(table))
}

/// Making a change leads to `after` and to `outcome`.
pub open spec fn change_leads<E>(
    store: Store,
    sent: ChangeSent,
    sql: &'static str,
    batch: bool,
    made: Result<(), E>,
    after: Store,
    outcome: Result<SetupStep, E>,
) -> bool {
    &&& call_ensures(Change::sql, (sent.change,), sql)
    &&& call_ensures(Change::is_batch, (sent.change,), batch)
    &&& has_effect(store, sql@, batch, made is Ok, after)
    &&& call_ensures(ChangeSent::reply::<E>, (sent, made), outcome)
}

/// Looking for a table leads to `next`. The query for a table that is there yields a row, if
/// it does not fail; one that yields no row may fail for that.
pub open spec fn search_leads<E>(
    store: Store,
    lost: Set<Table>,
    search: TableSearch,
    sql: &'static str,
    found: Result<bool, E>,
    next: SetupStep,
) -> bool {
    &&& call_ensures(TableSearch::sql, (search,), sql)
    &&& forall|table: Table|
        sql@ == #[trigger] search_sql(table) ==> match found {
            Ok(found) => !lost.contains(table) && (found <==> !(store.table(table) is Missing)),
            Err(_) => lost.contains(table) || store.table(table) is Missing,
        }
    &&& call_ensures(TableSearch::reply::<E>, (search, found), next)
}

/// Asking for the columns leads to `next`. A table in the current schema has a column `action`,
/// one in the old schema has none.
pub open spec fn columns_lead<E>(
    store: Store,
    search: ColumnSearch,
    sql: String,
    columns: Vec<String>,
    next: SetupStep,
) -> bool {
    &&& call_ensures(ColumnSearch::sql, (search,), sql)
    &&& forall|table: Table|
        sql@ == "PRAGMA table_info(\""@ + #[trigger] named(table) + "\")"@ ==> (store.table(
            table,
        ) is Current <==> exists|i: int|
            0 <= i < columns@.len() && (#[trigger] columns@[i])@ == "action"@)
    &&& call_ensures(
        ColumnSearch::reply::<E>,
        (search, Ok::<Vec<String>, E>(columns)),
        Ok::<SetupStep, E>(next),
    )
}

/// Warning leads to `next`.
pub open spec fn warning_leads(due: WarningDue, text: &'static str, next: SetupStep) -> bool {
    &&& call_ensures(WarningDue::text, (due,), text)
    &&& call_ensures(WarningDue::reply, (due,), next)
}

/// The warning that a table has been migrated.
pub open spec fn warning_text() -> Seq<char> {
    "\nWARNING: Database schema has been migrated to support per-action tracking.\n\
     Existing records have been preserved with an empty action value and will NOT\n\
     prevent re-processing under the new scheme. Each action (ocr-fixes, common-fixes,\n\
     remove-emoji, etc.) is now tracked independently — you may need to re-run\n\
     previous actions once to rebuild the per-action processed history.\n"@
}

/// A step leads to the database `after` and, unless it fails, on to another step.
pub open spec fn sets_up<E>(
    store: Store,
    lost: Set<Table>,
    step: SetupStep,
    after: Store,
    outcome: Result<SetupStep, E>,
    warned: bool,
) -> bool {
    match step {
        SetupStep::Apply(sent) => !warned && exists|
            sql: &'static str,
            batch: bool,
            made: Result<(), E>,
        | #[trigger] change_leads(store, sent, sql, batch, made, after, outcome),
        SetupStep::FindTable(search) => !warned && after == store && outcome is Ok && exists|
            sql: &'static str,
            found: Result<bool, E>,
        | #[trigger] search_leads(store, lost, search, sql, found, outcome->Ok_0),
        SetupStep::ListColumns(search) => !warned && after == store && outcome is Ok && exists|
            sql: String,
            columns: Vec<String>,
        | #[trigger] columns_lead::<E>(store, search, sql, columns, outcome->Ok_0),
        SetupStep::Warn(due) => after == store && outcome is Ok && exists|
            text: &'static str,
        | #[trigger]
            warning_leads(due, text, outcome->Ok_0) && (warned <==> text@ == warning_text()),
        SetupStep::Ready => false,
    }
}

/// What a preparation comes to with a step that leads to `after`, where what follows it comes
/// to `rest`. A step that fails is the last.
pub open spec fn adds_up<E>(
    after: Store,
    outcome: Result<SetupStep, E>,
    warned: bool,
    rest: Preparation,
) -> Preparation {
    match outcome {
        Ok(_) => Preparation { warned: warned || rest.warned, ..rest },
        Err(_) => Preparation { store: after, warned, ready: false },
    }
}

/// From `step` on, the preparation comes to `done` after at most `n` steps. Looking for the
/// tables in `lost` fails.
pub open spec fn comes_to<E>(
    store: Store,
    lost: Set<Table>,
    step: SetupStep,
    done: Preparation,
    n: nat,
) -> bool
    decreases n,
{
    match step {
        SetupStep::Ready => done == (Preparation { store, warned: false, ready: true }),
        _ => n > 0 && exists|
            after: Store,
            outcome: Result<SetupStep, E>,
            warned: bool,
            rest: Preparation,
        |
            #![trigger sets_up(store, lost, step, after, outcome, warned),
                adds_up(after, outcome, warned, rest)]
            sets_up(store, lost, step, after, outcome, warned) && done == adds_up(
                after,
                outcome,
                warned,
                rest,
            ) && (outcome is Ok ==> comes_to::<E>(
                after,
                lost,
                outcome->Ok_0,
                rest,
                (n - 1) as nat,
            )),
    }
}

/// What a change leads to, whatever its text, is what the change stands for.
proof fn lemma_change_leads<E>(
    store: Store,
    sent: ChangeSent,
    sql: &'static str,
    batch: bool,
    made: Result<(), E>,
    after: Store,
    outcome: Result<SetupStep, E>,
)
    requires
        change_leads(store, sent, sql, batch, made, after, outcome),
    ensures
        made is Ok == store.accepts(sent.change),
        after == store.changed(sent.change),
        outcome is Ok == made is Ok,
        outcome is Ok ==> outcome->Ok_0 == sent.next(),
{
    lemma_create();
    lemma_migrate_movie();
    lemma_migrate_episode();
    lemma_index();
    match sent.change {
        Change::EnableForeignKeys => {},
        Change::CreateTable(table) => {
            assert(sql@ == create_sql(table));
        },
        Change::MigrateTable(table) => {
            assert(sql@ == migrate_sql(table));
        },
        Change::CreateIndex(table) => {
            assert(sql@ == index_sql(table));
        },
    }
}

/// The steps stand for what they say: what is carried out is what the transitions tell of.
proof fn lemma_comes_to<E>(
    store: Store,
    lost: Set<Table>,
    step: SetupStep,
    done: Preparation,
    n: nat,
)
    requires
        comes_to::<E>(store, lost, step, done, n),
    ensures
        done == prepare(store, step, lost),
    decreases n,
{
    if !(step is Ready) {
        let (after, outcome, warned, rest) = choose|
            after: Store,
            outcome: Result<SetupStep, E>,
            warned: bool,
            rest: Preparation,
        |
            #![trigger sets_up(store, lost, step, after, outcome, warned),
                adds_up(after, outcome, warned, rest)]
            sets_up(store, lost, step, after, outcome, warned) && done == adds_up(
                after,
                outcome,
                warned,
                rest,
            ) && (outcome is Ok ==> comes_to::<E>(
                after,
                lost,
                outcome->Ok_0,
                rest,
                (n - 1) as nat,
            ));
        match step {
            SetupStep::Apply(sent) => {
                let (sql, batch, made) = choose|
                    sql: &'static str,
                    batch: bool,
                    made: Result<(), E>,
                | #[trigger] change_leads(store, sent, sql, batch, made, after, outcome);
                lemma_change_leads(store, sent, sql, batch, made, after, outcome);
            },
            SetupStep::FindTable(search) => {
                let (sql, found) = choose|sql: &'static str, found: Result<bool, E>| #[trigger]
                    search_leads(store, lost, search, sql, found, outcome->Ok_0);
                lemma_search();
                assert(sql@ == search_sql(search.table));
            },
            SetupStep::ListColumns(search) => {
                let (sql, columns) = choose|sql: String, columns: Vec<String>| #[trigger]
                    columns_lead::<E>(store, search, sql, columns, outcome->Ok_0);
                assert(sql@ == "PRAGMA table_info(\""@ + named(search.table) + "\")"@);
            },
            SetupStep::Warn(due) => {
                let text = choose|text: &'static str| #[trigger]
                    warning_leads(due, text, outcome->Ok_0) && (warned <==> text@
                        == warning_text());
                assert(warned);
            },
            SetupStep::Ready => {},
        }
        if let Ok(next) = outcome {
            lemma_comes_to::<E>(after, lost, next, rest, (n - 1) as nat);
        }
    }
}

/// A record is taken over into the current schema: it keeps all that it held, and its action
/// is empty.
pub open spec fn is_taken_over(row: LegacyRecord, record: Record) -> bool {
    &&& record.id == row.id
    &&& record.media_id == row.media_id
    &&& record.title == row.title
    &&& record.language_code == row.language_code
    &&& record.language_name == row.language_name
    &&& record.path == row.path
    &&& record.action.len() == 0
    &&& record.processed_at == row.processed_at
}

/// What becomes of a table: a missing one is there and empty, one in the current schema is as
/// it was, and one in the old schema has its records taken over, in their order. One in the old
/// schema that could not be looked for stays as it was.
pub open spec fn becomes(before: TableState, lost: bool, after: TableState) -> bool {
    match before {
        TableState::Missing => after == TableState::Current(Seq::empty()),
        TableState::Current(rows) => after == TableState::Current(rows),
        TableState::Legacy(rows) => if lost {
            after == before
        } else {
            &&& after matches TableState::Current(records)
            &&& records.len() == rows.len()
            &&& forall|i: int|
                0 <= i < rows.len() ==> #[trigger] is_taken_over(rows[i], records[i])
        },
    }
}

/// Two records of the old schema can both be taken over: they differ in the row id, and in the
/// medium or the language code.
pub open spec fn go_together(a: LegacyRecord, b: LegacyRecord) -> bool {
    a.id != b.id && !(a.media_id == b.media_id && a.language_code == b.language_code)
}

/// Nothing about a table stands in the way of a preparation. A table in the old schema has
/// records that go together, and the name of the new table is free; or it could not be looked
/// for, and has an index.
pub open spec fn stands_aside(before: TableState, lost: bool, taken: bool, indexed: bool) -> bool {
    before matches TableState::Legacy(rows) ==> if lost {
        indexed
    } else {
        !taken && forall|i: int, j: int|
            0 <= i < j < rows.len() ==> go_together(#[trigger] rows[i], #[trigger] rows[j])
    }
}

/// A table is in the old schema, and looking for it succeeds.
pub open spec fn is_due(before: TableState, lost: bool) -> bool {
    before is Legacy && !lost
}

proof fn lemma_goes_together(rows: Seq<LegacyRecord>)
    ensures
        unique(migrated(rows)) && distinct_ids(migrated(rows)) <==> forall|i: int, j: int|
            0 <= i < j < rows.len() ==> go_together(#[trigger] rows[i], #[trigger] rows[j]),
{
    let after = migrated(rows);
    if unique(after) && distinct_ids(after) {
        assert forall|i: int, j: int| 0 <= i < j < rows.len() implies go_together(
            #[trigger] rows[i],
            #[trigger] rows[j],
        ) by {
            assert(after[i].key() != after[j].key());
            assert(after[i].id != after[j].id);
            assert(after[i].action =~= after[j].action);
        }
    }
    if forall|i: int, j: int|
        0 <= i < j < rows.len() ==> go_together(#[trigger] rows[i], #[trigger] rows[j]) {
        assert forall|i: int, j: int| 0 <= i < j < after.len() implies #[trigger] after[i].key()
            != #[trigger] after[j].key() by {
            assert(go_together(rows[i], rows[j]));
        }
        assert forall|i: int, j: int| 0 <= i < j < after.len() implies (#[trigger] after[i]).id
            != (#[trigger] after[j]).id by {
            assert(go_together(rows[i], rows[j]));
        }
    }
}

proof fn lemma_becomes(before: TableState)
    ensures
        becomes(before, false, before.prepared()),
        before is Legacy ==> becomes(before, true, before),
{
    if let TableState::Legacy(rows) = before {
        assert forall|i: int| 0 <= i < rows.len() implies #[trigger] is_taken_over(
            rows[i],
            migrated(rows)[i],
        ) by {}
    }
}

/// The migration of a table is due, and something about the table stands in its way.
pub open spec fn is_blocked(store: Store, table: Table, lost: bool) -> bool {
    is_due(store.table(table), lost) && !stands_aside(
        store.table(table),
        lost,
        store.taken.contains(table),
        store.indexes.contains(table),
    )
}

/// What a preparation comes to, over the database before it. A table that is blocked stays as
/// it was, and so do the episodes if the movies are blocked.
pub open spec fn is_prepared_from(store: Store, lost: Set<Table>, done: Preparation) -> bool {
    let movies_lost = lost.contains(Table::Movies);
    let episodes_lost = lost.contains(Table::Episodes);
    let movies_blocked = is_blocked(store, Table::Movies, movies_lost);
    let episodes_blocked = is_blocked(store, Table::Episodes, episodes_lost);
    &&& done.ready <==> stands_aside(
        store.movies,
        movies_lost,
        store.taken.contains(Table::Movies),
        store.indexes.contains(Table::Movies),
    ) && stands_aside(
        store.episodes,
        episodes_lost,
        store.taken.contains(Table::Episodes),
        store.indexes.contains(Table::Episodes),
    )
    &&& done.warned <==> (is_due(store.movies, movies_lost) || is_due(
        store.episodes,
        episodes_lost,
    )) && !movies_blocked && !episodes_blocked
    &&& if movies_blocked {
        done.store.movies == store.movies
    } else {
        becomes(store.movies, movies_lost, done.store.movies)
    }
    &&& if movies_blocked || episodes_blocked {
        done.store.episodes == store.episodes
    } else {
        becomes(store.episodes, episodes_lost, done.store.episodes)
    }
    &&& done.ready ==> done.store.indexes.contains(Table::Movies) && done.store.indexes.contains(
        Table::Episodes,
    )
    &&& done.store.taken == store.taken
    &&& done.store.max_params == store.max_params
}

proof fn lemma_prepared_from(store: Store, lost: Set<Table>)
    ensures
        is_prepared_from(store, lost, prepare(store, search_start(), lost)),
        prepare(store, search_start(), lost).store.foreign_keys == store.foreign_keys,
{
    law_search_reaches(store, lost);
    lemma_becomes(store.movies);
    lemma_becomes(store.episodes);
    if let TableState::Legacy(rows) = store.movies {
        lemma_goes_together(rows);
    }
    if let TableState::Legacy(rows) = store.episodes {
        lemma_goes_together(rows);
    }
}

/// Carried out, preparing a database leaves foreign keys enforced. It is carried through
/// exactly if both tables stand aside; both then have become what they should, with an index
/// each. The warning has been printed exactly if a migration was due and none was blocked.
pub proof fn law_database_prepared<E>(
    store: Store,
    lost: Set<Table>,
    step: SetupStep,
    done: Preparation,
    n: nat,
)
    requires
        call_ensures(prepare_db, (), step),
        comes_to::<E>(store, lost, step, done, n),
    ensures
        done.store.foreign_keys,
        is_prepared_from(store, lost, done),
{
    let begun = Store { foreign_keys: true, ..store };
    lemma_comes_to::<E>(store, lost, step, done, n);
    lemma_prepared_from(begun, lost);
    law_search_reaches(begun, lost);
    law_prepare_reaches(store, lost);
}

/// Carried out, seeing to the tables does to them what preparing a database does, and leaves
/// the foreign keys alone.
pub proof fn law_tables_created<E>(
    store: Store,
    lost: Set<Table>,
    step: SetupStep,
    done: Preparation,
    n: nat,
)
    requires
        call_ensures(create_tables, (), step),
        comes_to::<E>(store, lost, step, done, n),
    ensures
        done.store.foreign_keys == store.foreign_keys,
        is_prepared_from(store, lost, done),
{
    lemma_comes_to::<E>(store, lost, step, done, n);
    lemma_prepared_from(store, lost);
}

/// An error in making a change or in asking for the columns ends the preparation and is handed
/// on; without one it goes on.
pub proof fn law_setup_errors<E>(
    sent: ChangeSent,
    made: Result<(), E>,
    changed: Result<SetupStep, E>,
    search: ColumnSearch,
    columns: Result<Vec<String>, E>,
    searched: Result<SetupStep, E>,
)
    requires
        call_ensures(ChangeSent::reply::<E>, (sent, made), changed),
        call_ensures(ColumnSearch::reply::<E>, (search, columns), searched),
    ensures
        made matches Err(error) ==> changed == Err::<SetupStep, E>(error),
        made is Ok ==> changed is Ok,
        columns matches Err(error) ==> searched == Err::<SetupStep, E>(error),
        columns is Ok ==> searched is Ok,
{
}

/// A column is found exactly if one of the columns has its name.
pub proof fn law_column_exists(columns: Vec<String>, column: &str, found: bool)
    requires
        call_ensures(column_exists, (&columns, column), found),
    ensures
        found <==> exists|i: int|
            0 <= i < columns@.len() && (#[trigger] columns@[i])@ == column@,
{
}

/// The tables have their names; a table is looked for under its name, and its columns are asked
/// for under the name in quotes.
pub proof fn law_tables_asked(
    table: Table,
    name: &'static str,
    table_search: TableSearch,
    table_query: &'static str,
    other: &str,
    query: String,
    column_search: ColumnSearch,
    column_query: String,
)
    requires
        call_ensures(table_name, (table,), name),
        call_ensures(TableSearch::sql, (table_search,), table_query),
        call_ensures(columns_query, (other,), query),
        call_ensures(ColumnSearch::sql, (column_search,), column_query),
    ensures
        name@ == named(table),
        table_query@ == search_sql(table_search.table),
        query@ == "PRAGMA table_info(\""@ + other@ + "\")"@,
        column_query@ == "PRAGMA table_info(\""@ + named(column_search.table) + "\")"@,
{
    lemma_search();
}

/// The warning that is printed.
pub proof fn law_warning(due: WarningDue, text: &'static str)
    requires
        call_ensures(WarningDue::text, (due,), text),
    ensures
        text@ == warning_text(),
{
}

} // verus!
