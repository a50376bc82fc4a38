//! What preparing a database does to it.

use vstd::prelude::*;

use crate::media::{Media, Table};
use crate::setup::{
    init_step, search_start, table_end, table_start, Change, ChangeSent, ColumnSearch, Findings,
    SetupStep, TableSearch,
};
use crate::store::{has_any, migrated, LegacyRecord, Store, TableState};

verus! {

/// How many steps there are at most until the database is ready.
pub open spec fn distance(step: SetupStep) -> nat {
    match step {
        SetupStep::Apply(sent) => match sent.change {
            Change::EnableForeignKeys => 10,
            Change::CreateTable(Table::Movies) => 6,
            Change::MigrateTable(Table::Movies) => 6,
            Change::CreateTable(Table::Episodes) => 4,
            Change::MigrateTable(Table::Episodes) => 4,
            Change::CreateIndex(Table::Movies) => 2,
            Change::CreateIndex(Table::Episodes) => 1,
        },
        SetupStep::FindTable(search) => match search.table {
            Table::Movies => 9,
            Table::Episodes => 8,
        },
        SetupStep::ListColumns(search) => match search.table {
            Table::Movies => 7,
            Table::Episodes => 5,
        },
        SetupStep::Warn(_) => 3,
        SetupStep::Ready => 0,
    }
}

/// What a preparation comes to.
pub struct Preparation {
    /// The database as it is left.
    pub store: Store,
    /// Whether the warning was printed.
    pub warned: bool,
    /// Whether all steps were carried out; if not, one was refused.
    pub ready: bool,
}

/// Carries out a preparation from `step` on, until the end or a change that is refused.
/// Looking for the tables in `lost` fails.
pub open spec fn prepare(store: Store, step: SetupStep, lost: Set<Table>) -> Preparation
    decreases distance(step),
{
    match step {
        SetupStep::Apply(sent) => if store.accepts(sent.change) {
            prepare(store.changed(sent.change), sent.next(), lost)
        } else {
            Preparation { store: store.changed(sent.change), warned: false, ready: false }
        },
        SetupStep::FindTable(search) => prepare(
            store,
            search.next(is_found(store, search.table, lost)),
            lost,
        ),
        SetupStep::ListColumns(search) => prepare(
            store,
            search.next(store.table(search.table) is Current),
            lost,
        ),
        SetupStep::Warn(due) => Preparation { warned: true, ..prepare(store, due.next(), lost) },
        SetupStep::Ready => Preparation { store, warned: false, ready: true },
    }
}

/// Looking for a table finds it.
pub open spec fn is_found(store: Store, table: Table, lost: Set<Table>) -> bool {
    !lost.contains(table) && !(store.table(table) is Missing)
}

/// Looking for a table that needs a migration fails.
pub open spec fn is_overlooked(store: Store, table: Table, lost: Set<Table>) -> bool {
    store.table(table) is Legacy && lost.contains(table)
}

/// A table is found, needs a migration, and the migration is refused.
pub open spec fn is_stuck(store: Store, table: Table, lost: Set<Table>) -> bool {
    is_found(store, table, lost) && !store.fits(table)
}

/// A table is found and needs a migration.
pub open spec fn is_outdated(store: Store, table: Table, lost: Set<Table>) -> bool {
    is_found(store, table, lost) && store.table(table) is Legacy
}

/// What becomes of a table whose migration, if it needs one, is not refused: an overlooked
/// one stays as it is.
pub open spec fn settled(store: Store, table: Table, lost: Set<Table>) -> TableState {
    if is_overlooked(store, table, lost) {
        store.table(table)
    } else {
        store.table(table).prepared()
    }
}

/// The database once a table has been seen to: found in the old schema it is migrated, found
/// in the current one it is left alone, and if it was not found it is created where it is
/// missing.
pub open spec fn seen_to(store: Store, table: Table, lost: Set<Table>) -> Store {
    if is_outdated(store, table, lost) {
        store.changed(Change::MigrateTable(table))
    } else if is_found(store, table, lost) {
        store
    } else {
        store.changed(Change::CreateTable(table))
    }
}

/// Creating the indexes, that of the movies first. `ready` is whether both are there.
pub open spec fn indexed(store: Store, warned: bool) -> Preparation {
    let half = store.changed(Change::CreateIndex(Table::Movies));
    if !store.accepts(Change::CreateIndex(Table::Movies)) {
        Preparation { store, warned, ready: false }
    } else {
        Preparation {
            store: half.changed(Change::CreateIndex(Table::Episodes)),
            warned,
            ready: half.accepts(Change::CreateIndex(Table::Episodes)),
        }
    }
}

/// How seeing to the tables leaves the database, and whether it warned and was carried through.
/// A refused migration ends it; when that of the episodes is refused, what was done about the
/// movies stays.
pub open spec fn seen_through(store: Store, lost: Set<Table>) -> Preparation {
    let half = seen_to(store, Table::Movies, lost);
    let whole = seen_to(half, Table::Episodes, lost);
    if is_stuck(store, Table::Movies, lost) {
        Preparation { store, warned: false, ready: false }
    } else if is_stuck(store, Table::Episodes, lost) {
        Preparation { store: half, warned: false, ready: false }
    } else {
        indexed(
            whole,
            is_outdated(store, Table::Movies, lost) || is_outdated(store, Table::Episodes, lost),
        )
    }
}

/// How a preparation leaves the database: foreign keys are enforced, and the tables seen to.
pub open spec fn reached(store: Store, lost: Set<Table>) -> Preparation {
    seen_through(store.changed(Change::EnableForeignKeys), lost)
}

proof fn lemma_indexes(store: Store, findings: Findings, lost: Set<Table>)
    ensures
        prepare(store, table_end(Table::Episodes, findings), lost) == indexed(
            store,
            findings.migrated,
        ),
{
    reveal_with_fuel(prepare, 4);
}

proof fn lemma_table(store: Store, table: Table, findings: Findings, lost: Set<Table>)
    requires
        findings.found(table) == is_found(store, table, lost),
    ensures
        prepare(store, table_start(table, findings), lost) == if is_stuck(store, table, lost) {
            Preparation { store, warned: false, ready: false }
        } else {
            prepare(
                seen_to(store, table, lost),
                table_end(
                    table,
                    Findings {
                        migrated: findings.migrated || is_outdated(store, table, lost),
                        ..findings
                    },
                ),
                lost,
            )
        },
{
    let after = seen_to(store, table, lost);
    let search = ColumnSearch { table, findings };
    let migration = ChangeSent { change: Change::MigrateTable(table), findings };
    let creation = ChangeSent { change: Change::CreateTable(table), findings };
    if findings.found(table) {
        if store.table(table) is Legacy {
            assert(search.next(false) == SetupStep::Apply(migration));
            assert(prepare(store, SetupStep::ListColumns(search), lost) == prepare(
                store,
                SetupStep::Apply(migration),
                lost,
            ));
        }
    } else {
        assert(prepare(store, SetupStep::Apply(creation), lost) == prepare(
            after,
            creation.next(),
            lost,
        ));
    }
}

/// On every database, and whichever searches fail, seeing to the tables comes to
/// [`seen_through`].
pub proof fn law_search_reaches(store: Store, lost: Set<Table>)
    ensures
        prepare(store, search_start(), lost) == seen_through(store, lost),
{
    let movies_found = is_found(store, Table::Movies, lost);
    let episodes_found = is_found(store, Table::Episodes, lost);
    let first = Findings::none();
    let second = Findings { movies_found, ..first };
    let third = Findings { episodes_found, ..second };
    let fourth = Findings { migrated: is_outdated(store, Table::Movies, lost), ..third };
    let fifth = Findings {
        migrated: fourth.migrated || is_outdated(store, Table::Episodes, lost),
        ..fourth
    };
    let search = TableSearch { table: Table::Episodes, findings: second };
    assert(prepare(store, search_start(), lost) == prepare(
        store,
        SetupStep::FindTable(search),
        lost,
    ));
    assert(search.next(episodes_found) == table_start(Table::Movies, third));
    assert(prepare(store, SetupStep::FindTable(search), lost) == prepare(
        store,
        table_start(Table::Movies, third),
        lost,
    ));
    lemma_table(store, Table::Movies, third, lost);
    let half = seen_to(store, Table::Movies, lost);
    assert(half.table(Table::Episodes) == store.table(Table::Episodes));
    lemma_table(half, Table::Episodes, fourth, lost);
    let whole = seen_to(half, Table::Episodes, lost);
    lemma_indexes(whole, fifth, lost);
}

/// On every database, and whichever searches fail, a preparation comes to [`reached`].
pub proof fn law_prepare_reaches(store: Store, lost: Set<Table>)
    ensures
        prepare(store, init_step(), lost) == reached(store, lost),
{
    let begun = store.changed(Change::EnableForeignKeys);
    assert(prepare(store, init_step(), lost) == prepare(begun, search_start(), lost));
    law_search_reaches(begun, lost);
}

/// Nothing keeps a preparation from being carried through on account of a table: if it is
/// found, its migration, where it needs one, is not refused; if it is overlooked, it has an
/// index already.
pub open spec fn lets_pass(store: Store, table: Table, lost: Set<Table>) -> bool {
    &&& !is_stuck(store, table, lost)
    &&& is_overlooked(store, table, lost) ==> store.indexes.contains(table)
}

/// Preparing a database is carried through exactly if both tables let it pass. Missing tables
/// are then there and empty, migrated ones hold their records with an empty action, and the
/// others are unchanged, among them one in the old schema that was overlooked. Both have an
/// index, and the warning has been printed exactly if a table was migrated. Carried through
/// or not, foreign keys are enforced, and each table is as it was or as it should be.
pub proof fn law_prepare(store: Store, lost: Set<Table>)
    ensures
        ({
            let done = prepare(store, init_step(), lost);
            &&& done.ready <==> lets_pass(store, Table::Movies, lost) && lets_pass(
                store,
                Table::Episodes,
                lost,
            )
            &&& done.ready ==> done.store == (Store {
                movies: settled(store, Table::Movies, lost),
                episodes: settled(store, Table::Episodes, lost),
                foreign_keys: true,
                indexes: done.store.indexes,
                ..store
            })
            &&& done.ready ==> forall|table: Table| done.store.indexes.contains(table)
            &&& done.ready ==> done.warned == (is_outdated(store, Table::Movies, lost)
                || is_outdated(store, Table::Episodes, lost))
            &&& done.store.foreign_keys
            &&& forall|table: Table| #[trigger]
                done.store.table(table) == store.table(table) || done.store.table(table)
                    == store.table(table).prepared()
        }),
{
    law_prepare_reaches(store, lost);
    let done = reached(store, lost);
    assert forall|table: Table| done.ready implies done.store.indexes.contains(table) by {
        match table {
            Table::Movies => {},
            Table::Episodes => {},
        }
    }
}

/// If every search succeeds, preparing a database is carried through exactly if nothing stands
/// in the way of the migrations that are needed. Both tables are then in the current schema,
/// and the warning has been printed exactly if one was not before.
pub proof fn law_prepare_unhindered(store: Store)
    ensures
        ({
            let done = prepare(store, init_step(), Set::empty());
            &&& done.ready <==> store.fits(Table::Movies) && store.fits(Table::Episodes)
            &&& done.ready ==> done.store.movies == store.movies.prepared()
            &&& done.ready ==> done.store.episodes == store.episodes.prepared()
            &&& done.ready ==> done.warned == (store.movies is Legacy || store.episodes is Legacy)
        }),
{
    law_prepare(store, Set::empty());
}

/// When the movies have been migrated and the migration of the episodes is refused, the
/// movies stay migrated, without an index so far, and the episodes as they were. No warning
/// is printed.
pub proof fn law_refused_episodes(store: Store, lost: Set<Table>)
    requires
        is_outdated(store, Table::Movies, lost),
        store.fits(Table::Movies),
        is_stuck(store, Table::Episodes, lost),
    ensures
        prepare(store, init_step(), lost) == (Preparation {
            store: Store {
                movies: store.movies.prepared(),
                foreign_keys: true,
                indexes: store.indexes.remove(Table::Movies),
                ..store
            },
            warned: false,
            ready: false,
        }),
{
    law_prepare_reaches(store, lost);
}

proof fn lemma_migrated_key(rows: Seq<LegacyRecord>, media_id: int, action: Seq<char>)
    requires
        action.len() > 0,
    ensures
        !has_any(migrated(rows), media_id, action),
{
    assert forall|i: int| 0 <= i < migrated(rows).len() implies (
    #[trigger] migrated(rows)[i]).action != action by {
        assert(migrated(rows)[i].action.len() == 0);
    }
}

/// The records of a migrated table are all there, in their order, with their row ids and an
/// empty action; no two have the same key or row id. Whatever an action with a name has to
/// do, it still has to do all of it.
pub proof fn law_migration_preserves<M: Media>(
    store: Store,
    rows: Seq<LegacyRecord>,
    item: M,
    action: Seq<char>,
)
    requires
        store.table(M::spec_table()) == TableState::Legacy(rows),
        store.accepts(Change::MigrateTable(M::spec_table())),
        action.len() > 0,
    ensures
        ({
            let after = store.changed(Change::MigrateTable(M::spec_table()));
            &&& after.table(M::spec_table()).is_sound()
            &&& after.rows(M::spec_table()).len() == rows.len()
            &&& forall|i: int|
                0 <= i < rows.len() ==> #[trigger] after.rows(M::spec_table())[i]
                    == rows[i].with_action(Seq::empty())
            &&& after.wanted(item, action)
        }),
{
    lemma_migrated_key(rows, item.spec_id() as int, action);
}

/// A preparation that is carried through leaves the database prepared, if no table in the
/// current schema held a key or a row id twice, and none in the old schema was overlooked.
pub proof fn law_prepared(store: Store, lost: Set<Table>)
    requires
        store.is_roomy(),
        store.movies is Current ==> store.movies.is_sound(),
        store.episodes is Current ==> store.episodes.is_sound(),
        !is_overlooked(store, Table::Movies, lost),
        !is_overlooked(store, Table::Episodes, lost),
    ensures
        ({
            let done = prepare(store, init_step(), lost);
            done.ready ==> done.store.is_prepared()
        }),
{
    law_prepare(store, lost);
}

/// Preparing a prepared database changes nothing, and prints no warning.
pub proof fn law_prepare_again(store: Store, lost: Set<Table>)
    requires
        store.is_prepared(),
    ensures
        prepare(store, init_step(), lost) == (Preparation { store, warned: false, ready: true }),
{
    law_prepare_reaches(store, lost);
    assert(store.indexes.insert(Table::Movies) =~= store.indexes);
    assert(store.indexes.insert(Table::Episodes) =~= store.indexes);
}

} // verus!
