//! What the database holds, and what the requests of this crate mean over that.
//!
//! A request that the database refuses because of what it holds gives `None`. The model knows
//! the two tables, each missing, in the old schema or in the current one, their indexes,
//! whether foreign keys are enforced, and whether the names are free under which a migration
//! builds the new tables. Other objects under the names that this crate uses, other schemas,
//! and failures of the disk, the lock or the row ids are outside it.

use vstd::prelude::*;

use crate::media::{Media, Table};
use crate::records::{Lookup, Mark, MarkStep};
use crate::setup::Change;

verus! {

/// What a table keeps at most one record of.
pub struct Key {
    pub media_id: int,
    pub language_code: Seq<char>,
    pub action: Seq<char>,
}

/// A row of a table.
pub struct Record {
    pub id: int,
    pub media_id: int,
    pub title: Seq<char>,
    pub language_code: Seq<char>,
    pub language_name: Seq<char>,
    pub path: Option<Seq<char>>,
    pub action: Seq<char>,
    pub processed_at: int,
}

impl Record {
    pub open spec fn key(self) -> Key {
        Key {
            media_id: self.media_id,
            language_code: self.language_code,
            action: self.action,
        }
    }

    /// The row with another action.
    pub open spec fn with_action(self, action: Seq<char>) -> Record {
        Record { action, ..self }
    }
}

/// A row of a table from before actions were told apart.
pub struct LegacyRecord {
    pub id: int,
    pub media_id: int,
    pub title: Seq<char>,
    pub language_code: Seq<char>,
    pub language_name: Seq<char>,
    pub path: Option<Seq<char>>,
    pub processed_at: int,
}

impl LegacyRecord {
    /// The row with an action.
    pub open spec fn with_action(self, action: Seq<char>) -> Record {
        Record {
            id: self.id,
            media_id: self.media_id,
            title: self.title,
            language_code: self.language_code,
            language_name: self.language_name,
            path: self.path,
            action,
            processed_at: self.processed_at,
        }
    }
}

/// Some row has this key.
pub open spec fn has_key(rows: Seq<Record>, key: Key) -> bool {
    exists|i: int| 0 <= i < rows.len() && #[trigger] rows[i].key() == key
}

/// Some row is about this medium and this action, in whatever language.
pub open spec fn has_any(rows: Seq<Record>, media_id: int, action: Seq<char>) -> bool {
    exists|i: int|
        0 <= i < rows.len() && (#[trigger] rows[i]).media_id == media_id && rows[i].action
            == action
}

/// No two rows have the same key.
pub open spec fn unique(rows: Seq<Record>) -> bool {
    forall|i: int, j: int|
        0 <= i < j < rows.len() ==> #[trigger] rows[i].key() != #[trigger] rows[j].key()
}

/// Some row has this row id.
pub open spec fn has_id(rows: Seq<Record>, id: int) -> bool {
    exists|i: int| 0 <= i < rows.len() && (#[trigger] rows[i]).id == id
}

/// No two rows have the same row id.
pub open spec fn distinct_ids(rows: Seq<Record>) -> bool {
    forall|i: int, j: int|
        0 <= i < j < rows.len() ==> (#[trigger] rows[i]).id != (#[trigger] rows[j]).id
}

/// The rows with a record added, unless its key is there already.
pub open spec fn insert_new(rows: Seq<Record>, record: Record) -> Seq<Record> {
    if has_key(rows, record.key()) {
        rows
    } else {
        rows.push(record)
    }
}

/// The rows that a migration leaves of a table in the old schema: the same, with an empty
/// action.
pub open spec fn migrated(rows: Seq<LegacyRecord>) -> Seq<Record> {
    rows.map_values(|row: LegacyRecord| row.with_action(Seq::empty()))
}

/// The rows that a migration leaves of a table in the current schema: the actions are lost.
pub open spec fn emptied(rows: Seq<Record>) -> Seq<Record> {
    rows.map_values(|row: Record| row.with_action(Seq::empty()))
}

/// A table of the database.
pub enum TableState {
    Missing,
    /// Without the column for the action.
    Legacy(Seq<LegacyRecord>),
    Current(Seq<Record>),
}

impl TableState {
    /// The table as preparing the database leaves it.
    pub open spec fn prepared(self) -> TableState {
        match self {
            TableState::Missing => TableState::Current(Seq::empty()),
            TableState::Legacy(rows) => TableState::Current(migrated(rows)),
            TableState::Current(rows) => TableState::Current(rows),
        }
    }

    /// The rows that a migration would put into the new table, if there is a table at all.
    pub open spec fn migrated_rows(self) -> Option<Seq<Record>> {
        match self {
            TableState::Missing => None,
            TableState::Legacy(rows) => Some(migrated(rows)),
            TableState::Current(rows) => Some(emptied(rows)),
        }
    }

    /// The table is in the current schema, with no two rows of the same key or row id.
    pub open spec fn is_sound(self) -> bool {
        self matches TableState::Current(rows) && unique(rows) && distinct_ids(rows)
    }
}

/// How many values a [`Lookup`] binds.
pub open spec fn lookup_params() -> nat {
    3
}

/// How many values a [`Mark`] binds.
pub open spec fn mark_params() -> nat {
    7
}

/// The database.
pub struct Store {
    pub movies: TableState,
    pub episodes: TableState,
    /// The tables with an index.
    pub indexes: Set<Table>,
    /// Whether foreign keys are enforced.
    pub foreign_keys: bool,
    /// The tables whose migration finds the name of its new table taken.
    pub taken: Set<Table>,
    /// How many values a query may bind at most.
    pub max_params: nat,
}

impl Store {
    pub open spec fn table(self, table: Table) -> TableState {
        match table {
            Table::Movies => self.movies,
            Table::Episodes => self.episodes,
        }
    }

    pub open spec fn with_table(self, table: Table, state: TableState) -> Store {
        match table {
            Table::Movies => Store { movies: state, ..self },
            Table::Episodes => Store { episodes: state, ..self },
        }
    }

    /// The records in a table of the current schema.
    pub open spec fn rows(self, table: Table) -> Seq<Record>
        recommends
            self.table(table) is Current,
    {
        self.table(table)->Current_0
    }

    /// The queries that bind a fixed number of values can be asked.
    pub open spec fn is_roomy(self) -> bool {
        lookup_params() <= self.max_params && mark_params() <= self.max_params
    }

    /// The database is as a preparation that is carried through leaves it.
    pub open spec fn is_prepared(self) -> bool {
        &&& self.movies.is_sound()
        &&& self.episodes.is_sound()
        &&& self.indexes.contains(Table::Movies)
        &&& self.indexes.contains(Table::Episodes)
        &&& self.foreign_keys
        &&& self.is_roomy()
    }

    /// A table answers queries that bind `params` values. One that is missing or has no
    /// column for the action answers none.
    pub open spec fn serves(self, table: Table, params: nat) -> bool {
        self.table(table) is Current && params <= self.max_params
    }

    /// The answer to the question for a key.
    pub open spec fn has_record(self, table: Table, key: Key) -> Option<bool> {
        if self.serves(table, lookup_params()) {
            Some(has_key(self.rows(table), key))
        } else {
            None
        }
    }

    /// The answer to a [`Lookup`].
    pub open spec fn holds(self, lookup: Lookup) -> Option<bool> {
        self.has_record(lookup.table, lookup.key())
    }

    /// The answer to a [`crate::records::RecordedIds`], which binds the ids and the action.
    pub open spec fn recorded(
        self,
        table: Table,
        ids: Seq<u32>,
        action: Seq<char>,
    ) -> Option<Set<u32>> {
        if self.serves(table, ids.len() + 1) {
            Some(
                Set::new(
                    |id: u32| ids.contains(id) && has_any(self.rows(table), id as int, action),
                ),
            )
        } else {
            None
        }
    }

    /// The database after the insertion of a [`Mark`] at `now`, with `id` as the row id.
    pub open spec fn marked(self, mark: Mark, id: int, now: u64) -> Option<Store> {
        if self.serves(mark.table, mark_params()) {
            Some(
                self.with_table(
                    mark.table,
                    TableState::Current(insert_new(self.rows(mark.table), mark.record(id, now))),
                ),
            )
        } else {
            None
        }
    }

    /// How many rows the insertion of a [`Mark`] changes.
    pub open spec fn rows_changed(self, mark: Mark) -> Option<nat> {
        if self.serves(mark.table, mark_params()) {
            Some(
                if has_key(self.rows(mark.table), mark.key()) {
                    0
                } else {
                    1
                },
            )
        } else {
            None
        }
    }

    /// The database after a step of marking, with `id` and `now` for an insertion.
    pub open spec fn after_mark(self, step: MarkStep, id: int, now: u64) -> Option<Store> {
        match step {
            MarkStep::Finished(_) => Some(self),
            MarkStep::Insert(mark) => self.marked(mark, id, now),
        }
    }

    /// The database after one step of marking after the other.
    pub open spec fn after_marks(self, steps: Seq<(MarkStep, int, u64)>) -> Option<Store>
        decreases steps.len(),
    {
        if steps.len() == 0 {
            Some(self)
        } else {
            match self.after_mark(steps[0].0, steps[0].1, steps[0].2) {
                Some(next) => next.after_marks(steps.drop_first()),
                None => None,
            }
        }
    }

    /// An action has something left to do on a medium: there is no record of it for the
    /// action at all, or none of one of its subtitles with a language code.
    pub open spec fn wanted<M: Media>(self, item: M, action: Seq<char>) -> bool
        recommends
            self.table(M::spec_table()) is Current,
    {
        ||| !has_any(self.rows(M::spec_table()), item.spec_id() as int, action)
        ||| exists|sub: int| #[trigger] self.unprocessed(item, sub, action)
    }

    /// A subtitle of a medium has a language code, and no record for the action.
    pub open spec fn unprocessed<M: Media>(self, item: M, sub: int, action: Seq<char>) -> bool
        recommends
            self.table(M::spec_table()) is Current,
    {
        &&& 0 <= sub < item.spec_subtitles().len()
        &&& item.spec_subtitles()[sub].code() matches Some(language_code) && !has_key(
            self.rows(M::spec_table()),
            Key { media_id: item.spec_id() as int, language_code, action },
        )
    }

    /// The rows that a migration of a table leaves. There is no migration of a table that is
    /// missing, none while the name of the new table is taken, and none if two of the rows
    /// have the same key, now that the action is empty, or the same row id.
    pub open spec fn migration(self, table: Table) -> Option<Seq<Record>> {
        match self.table(table).migrated_rows() {
            Some(rows) => if !self.taken.contains(table) && unique(rows) && distinct_ids(rows) {
                Some(rows)
            } else {
                None
            },
            None => None,
        }
    }

    /// If a table needs a migration, nothing stands in its way.
    pub open spec fn fits(self, table: Table) -> bool {
        self.table(table) is Legacy ==> self.migration(table) is Some
    }

    /// Nothing that the model knows stands in the way of a change. An index can be created
    /// only on the columns of the current schema; one that is there already is left alone,
    /// whatever the schema.
    pub open spec fn accepts(self, change: Change) -> bool {
        match change {
            Change::EnableForeignKeys => true,
            Change::CreateTable(_) => true,
            Change::MigrateTable(table) => self.migration(table) is Some,
            Change::CreateIndex(table) => self.table(table) is Current || (self.table(
                table,
            ) is Legacy && self.indexes.contains(table)),
        }
    }

    /// The database after a change. One that is refused changes nothing: a migration is a
    /// transaction, which is rolled back when the connection is closed. A migration drops the
    /// old table, and its index with it.
    pub open spec fn changed(self, change: Change) -> Store {
        if !self.accepts(change) {
            self
        } else {
            match change {
                Change::EnableForeignKeys => Store { foreign_keys: true, ..self },
                Change::CreateTable(table) => if self.table(table) is Missing {
                    self.with_table(table, TableState::Current(Seq::empty()))
                } else {
                    self
                },
                Change::MigrateTable(table) => Store {
                    indexes: self.indexes.remove(table),
                    ..self.with_table(table, TableState::Current(self.migration(table)->0))
                },
                Change::CreateIndex(table) => Store {
                    indexes: self.indexes.insert(table),
                    ..self
                },
            }
        }
    }
}

} // verus!
