//! Preparing a freshly opened database: both tables in the current schema, each with
//! an index.
//!
//! A table that is missing is created. One without the column `action` comes from a time
//! when actions were not told apart, and is migrated.

use vstd::prelude::*;

use crate::media::Table;

verus! {

pub const MOVIE_TABLE: &'static str = "processed_movie_subtitles";

pub const EPISODE_TABLE: &'static str = "processed_episode_subtitles";

/// The column that tells a table in the current schema from an older one.
pub const ACTION_COLUMN: &'static str = "action";

pub const ENABLE_FOREIGN_KEYS: &'static str = "PRAGMA foreign_keys = ON";

pub const MOVIE_SEARCH: &'static str =
    "SELECT 1 FROM sqlite_master WHERE type='table' AND name='processed_movie_subtitles'";

pub const EPISODE_SEARCH: &'static str =
    "SELECT 1 FROM sqlite_master WHERE type='table' AND name='processed_episode_subtitles'";

pub const TABLE_INFO_HEAD: &'static str = "PRAGMA table_info(\"";

pub const TABLE_INFO_TAIL: &'static str = "\")";

pub const CREATE_MOVIE_TABLE: &'static str = "CREATE TABLE IF NOT EXISTS processed_movie_subtitles (
    id INTEGER PRIMARY KEY AUTOINCREMENT,
    radarr_id INTEGER NOT NULL,
    title TEXT NOT NULL,
    language_code TEXT NOT NULL,
    language_name TEXT NOT NULL,
    path TEXT,
    action TEXT NOT NULL DEFAULT '',
    processed_at INTEGER NOT NULL,
    UNIQUE(radarr_id, language_code, action)
)";

pub const CREATE_EPISODE_TABLE: &'static str =
    "CREATE TABLE IF NOT EXISTS processed_episode_subtitles (
    id INTEGER PRIMARY KEY AUTOINCREMENT,
    sonarr_episode_id INTEGER NOT NULL,
    title TEXT NOT NULL,
    language_code TEXT NOT NULL,
    language_name TEXT NOT NULL,
    path TEXT,
    action TEXT NOT NULL DEFAULT '',
    processed_at INTEGER NOT NULL,
    UNIQUE(sonarr_episode_id, language_code, action)
)";

pub const MIGRATE_MOVIE_TABLE: &'static str = "BEGIN;
CREATE TABLE processed_movie_subtitles_new (
    id INTEGER PRIMARY KEY AUTOINCREMENT,
    radarr_id INTEGER NOT NULL,
    title TEXT NOT NULL,
    language_code TEXT NOT NULL,
    language_name TEXT NOT NULL,
    path TEXT,
    action TEXT NOT NULL DEFAULT '',
    processed_at INTEGER NOT NULL,
    UNIQUE(radarr_id, language_code, action)
);
INSERT INTO processed_movie_subtitles_new
    (id, radarr_id, title, language_code, language_name, path, action, processed_at)
SELECT id, radarr_id, title, language_code, language_name, path, '', processed_at
FROM processed_movie_subtitles;
DROP TABLE processed_movie_subtitles;
ALTER TABLE processed_movie_subtitles_new RENAME TO processed_movie_subtitles;
COMMIT;";

pub const MIGRATE_EPISODE_TABLE: &'static str = "BEGIN;
CREATE TABLE processed_episode_subtitles_new (
    id INTEGER PRIMARY KEY AUTOINCREMENT,
    sonarr_episode_id INTEGER NOT NULL,
    title TEXT NOT NULL,
    language_code TEXT NOT NULL,
    language_name TEXT NOT NULL,
    path TEXT,
    action TEXT NOT NULL DEFAULT '',
    processed_at INTEGER NOT NULL,
    UNIQUE(sonarr_episode_id, language_code, action)
);
INSERT INTO processed_episode_subtitles_new
    (id, sonarr_episode_id, title, language_code, language_name, path, action, processed_at)
SELECT id, sonarr_episode_id, title, language_code, language_name, path, '', processed_at
FROM processed_episode_subtitles;
DROP TABLE processed_episode_subtitles;
ALTER TABLE processed_episode_subtitles_new RENAME TO processed_episode_subtitles;
COMMIT;";

pub const CREATE_MOVIE_INDEX: &'static str =
    "CREATE INDEX IF NOT EXISTS idx_movie_radarr ON processed_movie_subtitles(radarr_id, action)";

pub const CREATE_EPISODE_INDEX: &'static str =
    "CREATE INDEX IF NOT EXISTS idx_episode_sonarr ON processed_episode_subtitles(sonarr_episode_id, action)";

/// Printed once when a table has been migrated.
pub const MIGRATION_WARNING: &'static str =
    "\nWARNING: Database schema has been migrated to support per-action tracking.\n\
     Existing records have been preserved with an empty action value and will NOT\n\
     prevent re-processing under the new scheme. Each action (ocr-fixes, common-fixes,\n\
     remove-emoji, etc.) is now tracked independently — you may need to re-run\n\
     previous actions once to rebuild the per-action processed history.\n";

/// The name of a table.
pub fn table_name(table: Table) -> (name: &'static str)
    ensures
        name@ == match table {
            Table::Movies => MOVIE_TABLE@,
            Table::Episodes => EPISODE_TABLE@,
        },
{
    match table {
        Table::Movies => MOVIE_TABLE,
        Table::Episodes => EPISODE_TABLE,
    }
}

/// The query for the columns of the table of this name; the second value of each row is
/// the name of a column.
pub fn columns_query(name: &str) -> (sql: String)
    ensures
        sql@ == TABLE_INFO_HEAD@ + name@ + TABLE_INFO_TAIL@,
{
    let mut sql = TABLE_INFO_HEAD.to_owned();
    sql.append(name);
    sql.append(TABLE_INFO_TAIL);
    sql
}

/// A column has this name.
pub open spec fn names_column(columns: Seq<String>, column: Seq<char>) -> bool {
    exists|i: int| 0 <= i < columns.len() && (#[trigger] columns[i])@ == column
}

/// Whether a column of this name is among the columns of a table.
pub fn column_exists(columns: &Vec<String>, column: &str) -> (found: bool)
    ensures
        found == names_column(columns@, column@),
{
    let wanted = column.to_owned();
    let mut i: usize = 0;
    while i < columns.len()
        invariant
            i <= columns@.len(),
            wanted@ == column@,
            forall|k: int| 0 <= k < i ==> (#[trigger] columns@[k])@ != column@,
        decreases columns@.len() - i,
    {
        if columns[i] == wanted {
            return true;
        }
        i = i + 1;
    }
    false
}

/// A change to the database.
#[derive(Clone, Copy, Debug, PartialEq, Eq, Structural)]
pub enum Change {
    EnableForeignKeys,
    CreateTable(Table),
    MigrateTable(Table),
    CreateIndex(Table),
}

impl Change {
    /// The SQL of the change.
    pub open spec fn text(self) -> Seq<char> {
        match self {
            Change::EnableForeignKeys => ENABLE_FOREIGN_KEYS@,
            Change::CreateTable(Table::Movies) => CREATE_MOVIE_TABLE@,
            Change::CreateTable(Table::Episodes) => CREATE_EPISODE_TABLE@,
            Change::MigrateTable(Table::Movies) => MIGRATE_MOVIE_TABLE@,
            Change::MigrateTable(Table::Episodes) => MIGRATE_EPISODE_TABLE@,
            Change::CreateIndex(Table::Movies) => CREATE_MOVIE_INDEX@,
            Change::CreateIndex(Table::Episodes) => CREATE_EPISODE_INDEX@,
        }
    }

    /// The SQL of the change.
    pub fn sql(self) -> (sql: &'static str)
        ensures
            sql@ == match self {
                Change::EnableForeignKeys => ENABLE_FOREIGN_KEYS@,
                Change::CreateTable(Table::Movies) => CREATE_MOVIE_TABLE@,
                Change::CreateTable(Table::Episodes) => CREATE_EPISODE_TABLE@,
                Change::MigrateTable(Table::Movies) => MIGRATE_MOVIE_TABLE@,
                Change::MigrateTable(Table::Episodes) => MIGRATE_EPISODE_TABLE@,
                Change::CreateIndex(Table::Movies) => CREATE_MOVIE_INDEX@,
                Change::CreateIndex(Table::Episodes) => CREATE_EPISODE_INDEX@,
            },
            sql@ == self.text(),
    {
        match self {
            Change::EnableForeignKeys => ENABLE_FOREIGN_KEYS,
            Change::CreateTable(Table::Movies) => CREATE_MOVIE_TABLE,
            Change::CreateTable(Table::Episodes) => CREATE_EPISODE_TABLE,
            Change::MigrateTable(table) => match table {
                Table::Movies => migrate_movie_table(),
                Table::Episodes => migrate_episode_table(),
            },
            Change::CreateIndex(Table::Movies) => CREATE_MOVIE_INDEX,
            Change::CreateIndex(Table::Episodes) => CREATE_EPISODE_INDEX,
        }
    }

    /// Whether the SQL is a batch of several statements, all of which are to be run.
    pub fn is_batch(self) -> (batch: bool)
        ensures
            batch == (self is MigrateTable),
    {
        match self {
            Change::MigrateTable(_) => true,
            _ => false,
        }
    }
}

/// The batch that brings the movie table into the current schema.
pub fn migrate_movie_table() -> (sql: &'static str)
    ensures
        sql@ == MIGRATE_MOVIE_TABLE@,
{
    MIGRATE_MOVIE_TABLE
}

/// The batch that brings the episode table into the current schema.
pub fn migrate_episode_table() -> (sql: &'static str)
    ensures
        sql@ == MIGRATE_EPISODE_TABLE@,
{
    MIGRATE_EPISODE_TABLE
}

/// What is known of the database while it is being prepared.
#[derive(Clone, Copy, Debug, PartialEq, Eq, Structural)]
pub struct Findings {
    pub movies_found: bool,
    pub episodes_found: bool,
    pub migrated: bool,
}

impl Findings {
    /// Nothing has been looked at yet.
    pub open spec fn none() -> Findings {
        Findings { movies_found: false, episodes_found: false, migrated: false }
    }

    pub open spec fn found(self, table: Table) -> bool {
        match table {
            Table::Movies => self.movies_found,
            Table::Episodes => self.episodes_found,
        }
    }

    pub open spec fn with_found(self, table: Table, found: bool) -> Findings {
        match table {
            Table::Movies => Findings { movies_found: found, ..self },
            Table::Episodes => Findings { episodes_found: found, ..self },
        }
    }
}

/// How preparing the database goes on.
#[derive(Clone, Copy, Debug, PartialEq, Eq, Structural)]
pub enum SetupStep {
    /// Make the change, and say how it went to [`ChangeSent::reply`].
    Apply(ChangeSent),
    /// Ask for a row of [`TableSearch::sql`], and hand the answer to [`TableSearch::reply`].
    FindTable(TableSearch),
    /// Ask for the names that [`ColumnSearch::sql`] yields, and hand them to
    /// [`ColumnSearch::reply`].
    ListColumns(ColumnSearch),
    /// Print [`WarningDue::text`], and go on with [`WarningDue::reply`].
    Warn(WarningDue),
    /// The database is prepared.
    Ready,
}

#[derive(Clone, Copy, Debug, PartialEq, Eq, Structural)]
pub struct ChangeSent {
    pub change: Change,
    pub findings: Findings,
}

#[derive(Clone, Copy, Debug, PartialEq, Eq, Structural)]
pub struct TableSearch {
    pub table: Table,
    pub findings: Findings,
}

#[derive(Clone, Copy, Debug, PartialEq, Eq, Structural)]
pub struct ColumnSearch {
    pub table: Table,
    pub findings: Findings,
}

#[derive(Clone, Copy, Debug, PartialEq, Eq, Structural)]
pub struct WarningDue {
    pub findings: Findings,
}

/// Both tables are looked for, the movie table first.
pub open spec fn search_start() -> SetupStep {
    SetupStep::FindTable(TableSearch { table: Table::Movies, findings: Findings::none() })
}

/// What is done about a table, once both have been looked for: one that is there may
/// need a migration, one that is not is created.
pub open spec fn table_start(table: Table, findings: Findings) -> SetupStep {
    if findings.found(table) {
        SetupStep::ListColumns(ColumnSearch { table, findings })
    } else {
        SetupStep::Apply(ChangeSent { change: Change::CreateTable(table), findings })
    }
}

/// After the movie table comes the episode table; after that the indexes, with a warning
/// before them if a table was migrated.
pub open spec fn table_end(table: Table, findings: Findings) -> SetupStep {
    match table {
        Table::Movies => table_start(Table::Episodes, findings),
        Table::Episodes => if findings.migrated {
            SetupStep::Warn(WarningDue { findings })
        } else {
            SetupStep::Apply(ChangeSent { change: Change::CreateIndex(Table::Movies), findings })
        },
    }
}

impl ChangeSent {
    /// How it goes on after the change has been made.
    pub open spec fn next(self) -> SetupStep {
        match self.change {
            Change::EnableForeignKeys => search_start(),
            Change::CreateTable(table) => table_end(table, self.findings),
            Change::MigrateTable(table) => table_end(
                table,
                Findings { migrated: true, ..self.findings },
            ),
            Change::CreateIndex(Table::Movies) => SetupStep::Apply(
                ChangeSent { change: Change::CreateIndex(Table::Episodes), ..self },
            ),
            Change::CreateIndex(Table::Episodes) => SetupStep::Ready,
        }
    }

    /// Goes on once the change has been tried. An error ends the preparation.
    pub fn reply<E>(self, made: Result<(), E>) -> (step: Result<SetupStep, E>)
        ensures
            step == match made {
                Ok(()) => Ok::<SetupStep, E>(self.next()),
                Err(error) => Err(error),
            },
    {
        if let Err(error) = made {
            return Err(error);
        }
        let step = match self.change {
            Change::EnableForeignKeys => create_tables(),
            Change::CreateTable(table) => end_table(table, self.findings),
            Change::MigrateTable(table) => end_table(
                table,
                Findings { migrated: true, ..self.findings },
            ),
            Change::CreateIndex(table) => match table {
                Table::Movies => SetupStep::Apply(
                    ChangeSent { change: Change::CreateIndex(Table::Episodes), ..self },
                ),
                Table::Episodes => SetupStep::Ready,
            },
        };
        Ok(step)
    }
}

impl TableSearch {
    /// The query; the table is there if it yields a row.
    pub fn sql(self) -> (sql: &'static str)
        ensures
            sql@ == match self.table {
                Table::Movies => MOVIE_SEARCH@,
                Table::Episodes => EPISODE_SEARCH@,
            },
    {
        match self.table {
            Table::Movies => MOVIE_SEARCH,
            Table::Episodes => EPISODE_SEARCH,
        }
    }

    /// How it goes on once it is known whether the table is there.
    pub open spec fn next(self, found: bool) -> SetupStep {
        let findings = self.findings.with_found(self.table, found);
        match self.table {
            Table::Movies => SetupStep::FindTable(
                TableSearch { table: Table::Episodes, findings },
            ),
            Table::Episodes => table_start(Table::Movies, findings),
        }
    }

    /// Goes on with the answer. A search that failed, as one does that yields no row, found
    /// no table.
    pub fn reply<E>(self, found: Result<bool, E>) -> (step: SetupStep)
        ensures
            step == self.next(
                match found {
                    Ok(found) => found,
                    Err(_) => false,
                },
            ),
    {
        let found = match found {
            Ok(found) => found,
            Err(_) => false,
        };
        match self.table {
            Table::Movies => SetupStep::FindTable(
                TableSearch {
                    table: Table::Episodes,
                    findings: Findings { movies_found: found, ..self.findings },
                },
            ),
            Table::Episodes => start_table(
                Table::Movies,
                Findings { episodes_found: found, ..self.findings },
            ),
        }
    }
}

impl ColumnSearch {
    /// The query for the columns of the table.
    pub fn sql(self) -> (sql: String)
        ensures
            sql@ == TABLE_INFO_HEAD@ + match self.table {
                Table::Movies => MOVIE_TABLE@,
                Table::Episodes => EPISODE_TABLE@,
            } + TABLE_INFO_TAIL@,
    {
        columns_query(table_name(self.table))
    }

    /// How it goes on once it is known whether the table tells actions apart.
    pub open spec fn next(self, current: bool) -> SetupStep {
        if current {
            table_end(self.table, self.findings)
        } else {
            SetupStep::Apply(
                ChangeSent { change: Change::MigrateTable(self.table), findings: self.findings },
            )
        }
    }

    /// Goes on with the names of the columns. An error ends the preparation.
    pub fn reply<E>(self, columns: Result<Vec<String>, E>) -> (step: Result<SetupStep, E>)
        ensures
            step == match columns {
                Ok(columns) => Ok::<SetupStep, E>(
                    self.next(names_column(columns@, ACTION_COLUMN@)),
                ),
                Err(error) => Err(error),
            },
    {
        match columns {
            Ok(columns) => Ok(
                if column_exists(&columns, ACTION_COLUMN) {
                    end_table(self.table, self.findings)
                } else {
                    SetupStep::Apply(
                        ChangeSent {
                            change: Change::MigrateTable(self.table),
                            findings: self.findings,
                        },
                    )
                },
            ),
            Err(error) => Err(error),
        }
    }
}

impl WarningDue {
    /// The warning.
    pub fn text(self) -> (text: &'static str)
        ensures
            text@ == MIGRATION_WARNING@,
    {
        MIGRATION_WARNING
    }

    /// How it goes on after the warning.
    pub open spec fn next(self) -> SetupStep {
        SetupStep::Apply(
            ChangeSent { change: Change::CreateIndex(Table::Movies), findings: self.findings },
        )
    }

    /// Goes on once the warning has been printed.
    pub fn reply(self) -> (step: SetupStep)
        ensures
            step == self.next(),
    {
        SetupStep::Apply(
            ChangeSent { change: Change::CreateIndex(Table::Movies), findings: self.findings },
        )
    }
}

fn start_table(table: Table, findings: Findings) -> (step: SetupStep)
    ensures
        step == table_start(table, findings),
{
    let found = match table {
        Table::Movies => findings.movies_found,
        Table::Episodes => findings.episodes_found,
    };
    if found {
        SetupStep::ListColumns(ColumnSearch { table, findings })
    } else {
        SetupStep::Apply(ChangeSent { change: Change::CreateTable(table), findings })
    }
}

fn end_table(table: Table, findings: Findings) -> (step: SetupStep)
    ensures
        step == table_end(table, findings),
{
    match table {
        Table::Movies => start_table(Table::Episodes, findings),
        Table::Episodes => if findings.migrated {
            SetupStep::Warn(WarningDue { findings })
        } else {
            SetupStep::Apply(ChangeSent { change: Change::CreateIndex(Table::Movies), findings })
        },
    }
}

/// Creates or migrates the tables, and creates the indexes.
pub fn create_tables() -> (step: SetupStep)
    ensures
        step == search_start(),
{
    SetupStep::FindTable(
        TableSearch {
            table: Table::Movies,
            findings: Findings { movies_found: false, episodes_found: false, migrated: false },
        },
    )
}

/// The step with which preparing a freshly opened database starts.
pub open spec fn init_step() -> SetupStep {
    SetupStep::Apply(
        ChangeSent { change: Change::EnableForeignKeys, findings: Findings::none() },
    )
}

/// Prepares a freshly opened database: foreign keys are enabled, then the tables are
/// seen to.
pub fn prepare_db() -> (step: SetupStep)
    ensures
        step == init_step(),
{
    SetupStep::Apply(
        ChangeSent {
            change: Change::EnableForeignKeys,
            findings: Findings { movies_found: false, episodes_found: false, migrated: false },
        },
    )
}

} // verus!
