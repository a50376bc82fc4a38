//! Statements as text, what their parts mean, and which text each constant is.

use vstd::prelude::*;

use crate::media::Table;
use crate::records::{
    EPISODE_IDS_HEAD, EPISODE_INSERT, EPISODE_LOOKUP, IDS_TAIL, MOVIE_IDS_HEAD, MOVIE_INSERT,
    MOVIE_LOOKUP,
};
use crate::setup::{
    CREATE_EPISODE_INDEX, CREATE_EPISODE_TABLE, CREATE_MOVIE_INDEX, CREATE_MOVIE_TABLE,
    EPISODE_SEARCH, MIGRATE_EPISODE_TABLE, MIGRATE_MOVIE_TABLE, MOVIE_SEARCH,
};
use crate::statement::{placeholders, Value};
use crate::store::Record;

verus! {

/// What a record holds in one column.
pub enum Cell {
    Null,
    Integer(int),
    Text(Seq<char>),
}

/// The columns of a table.
pub enum Column {
    RowId,
    MediaId,
    Title,
    LanguageCode,
    LanguageName,
    Path,
    Action,
    ProcessedAt,
}

/// What a bound value is.
pub open spec fn cell_of(value: Value) -> Cell {
    match value {
        Value::Null => Cell::Null,
        Value::Integer(n) => Cell::Integer(n as int),
        Value::Text(text) => Cell::Text(text@),
    }
}

/// What a record holds in a column.
pub open spec fn cell_in(record: Record, column: Column) -> Cell {
    match column {
        Column::RowId => Cell::Integer(record.id),
        Column::MediaId => Cell::Integer(record.media_id),
        Column::Title => Cell::Text(record.title),
        Column::LanguageCode => Cell::Text(record.language_code),
        Column::LanguageName => Cell::Text(record.language_name),
        Column::Path => match record.path {
            Some(path) => Cell::Text(path),
            None => Cell::Null,
        },
        Column::Action => Cell::Text(record.action),
        Column::ProcessedAt => Cell::Integer(record.processed_at),
    }
}

/// The name of a table.
pub open spec fn named(table: Table) -> Seq<char> {
    match table {
        Table::Movies => "processed_movie_subtitles"@,
        Table::Episodes => "processed_episode_subtitles"@,
    }
}

/// The name of a column.
pub open spec fn column_text(table: Table, column: Column) -> Seq<char> {
    match column {
        Column::RowId => "id"@,
        Column::MediaId => match table {
            Table::Movies => "radarr_id"@,
            Table::Episodes => "sonarr_episode_id"@,
        },
        Column::Title => "title"@,
        Column::LanguageCode => "language_code"@,
        Column::LanguageName => "language_name"@,
        Column::Path => "path"@,
        Column::Action => "action"@,
        Column::ProcessedAt => "processed_at"@,
    }
}

/// The columns of which a table keeps every combination at most once.
pub open spec fn key_columns() -> Seq<Column> {
    seq![Column::MediaId, Column::LanguageCode, Column::Action]
}

/// The columns that are given for a new record.
pub open spec fn given_columns() -> Seq<Column> {
    seq![
        Column::MediaId,
        Column::Title,
        Column::LanguageCode,
        Column::LanguageName,
        Column::Path,
        Column::Action,
        Column::ProcessedAt,
    ]
}

/// Names of columns, with commas between them.
pub open spec fn listed(table: Table, columns: Seq<Column>) -> Seq<char>
    decreases columns.len(),
{
    if columns.len() == 0 {
        Seq::empty()
    } else if columns.len() == 1 {
        column_text(table, columns[0])
    } else {
        listed(table, columns.drop_last()) + ", "@ + column_text(table, columns.last())
    }
}

/// A number from one to seven.
pub open spec fn numeral(n: nat) -> Seq<char> {
    if n == 1 {
        "1"@
    } else if n == 2 {
        "2"@
    } else if n == 3 {
        "3"@
    } else if n == 4 {
        "4"@
    } else if n == 5 {
        "5"@
    } else if n == 6 {
        "6"@
    } else {
        "7"@
    }
}

/// The condition that each of the columns holds the value bound in the same place.
pub open spec fn equated(table: Table, columns: Seq<Column>) -> Seq<char>
    decreases columns.len(),
{
    if columns.len() == 0 {
        Seq::empty()
    } else if columns.len() == 1 {
        column_text(table, columns[0]) + " = ?"@ + numeral(1)
    } else {
        equated(table, columns.drop_last()) + " AND "@ + column_text(table, columns.last())
            + " = ?"@ + numeral(columns.len())
    }
}

/// The places of the first `n` bound values, with commas between them.
pub open spec fn numbered(n: nat) -> Seq<char>
    decreases n,
{
    if n == 0 {
        Seq::empty()
    } else if n == 1 {
        "?"@ + numeral(1)
    } else {
        numbered((n - 1) as nat) + ", ?"@ + numeral(n)
    }
}

/// `n` question marks, with commas between them.
pub open spec fn questions(n: nat) -> Seq<char>
    decreases n,
{
    if n == 0 {
        Seq::empty()
    } else if n == 1 {
        "?"@
    } else {
        questions((n - 1) as nat) + ",?"@
    }
}

/// The records hold the bound values: each of the columns holds the value in the same place.
pub open spec fn agrees(record: Record, columns: Seq<Column>, params: Seq<Value>) -> bool {
    &&& params.len() == columns.len()
    &&& forall|i: int|
        0 <= i < columns.len() ==> cell_in(record, #[trigger] columns[i]) == cell_of(params[i])
}

/// Two records have the columns in common.
pub open spec fn share(a: Record, b: Record, columns: Seq<Column>) -> bool {
    forall|i: int|
        0 <= i < columns.len() ==> cell_in(a, #[trigger] columns[i]) == cell_in(b, columns[i])
}

/// A query that yields a row if some record agrees with the bound values.
pub open spec fn lookup_sql(table: Table) -> Seq<char> {
    "SELECT 1 FROM "@ + named(table) + "\n    WHERE "@ + equated(table, key_columns())
}

/// A query for the media ids, among the first `n` bound values, of the records whose action is
/// the last one.
pub open spec fn ids_sql(table: Table, n: nat) -> Seq<char> {
    "SELECT DISTINCT "@ + column_text(table, Column::MediaId) + " FROM "@ + named(table)
        + "\n    WHERE "@ + column_text(table, Column::MediaId) + " IN ("@ + questions(n)
        + ") AND "@ + column_text(table, Column::Action) + " = ?"@
}

/// The insertion of a record, unless one is there with the same key.
pub open spec fn insert_sql(table: Table) -> Seq<char> {
    "INSERT INTO "@ + named(table) + "\n    ("@ + listed(table, given_columns())
        + ")\n    VALUES ("@ + numbered(7) + ")\n    ON CONFLICT("@ + listed(table, key_columns())
        + ") DO NOTHING"@
}

/// The columns of a table, and its only constraint of uniqueness besides the row id, which is
/// on the columns that are given.
pub open spec fn schema_over(table: Table, columns: Seq<Column>) -> Seq<char> {
    " (\n    id INTEGER PRIMARY KEY AUTOINCREMENT,\n    "@ + column_text(table, Column::MediaId)
        + " INTEGER NOT NULL,\n    title TEXT NOT NULL,\n    language_code TEXT NOT NULL,\n    language_name TEXT NOT NULL,\n    path TEXT,\n    action TEXT NOT NULL DEFAULT '',\n    processed_at INTEGER NOT NULL,\n    UNIQUE("@
        + listed(table, columns) + ")\n)"@
}

/// The creation of a table with a constraint of uniqueness on these columns.
pub open spec fn create_over(table: Table, columns: Seq<Column>) -> Seq<char> {
    "CREATE TABLE IF NOT EXISTS "@ + named(table) + schema_over(table, columns)
}

/// The creation of a table that keeps every combination of the columns of the key at most once.
pub open spec fn create_sql(table: Table) -> Seq<char> {
    create_over(table, key_columns())
}

/// A transaction that builds the table anew with a constraint of uniqueness on these columns,
/// takes every record over with an empty action, and puts the new table in the place of the old
/// one.
pub open spec fn migrate_over(table: Table, columns: Seq<Column>) -> Seq<char> {
    "BEGIN;\nCREATE TABLE "@ + named(table) + "_new"@ + schema_over(table, columns)
        + ";\nINSERT INTO "@ + named(table) + "_new\n    ("@ + listed(table, seq![Column::RowId] + given_columns())
        + ")\nSELECT "@ + listed(
        table,
        seq![
            Column::RowId,
            Column::MediaId,
            Column::Title,
            Column::LanguageCode,
            Column::LanguageName,
            Column::Path,
        ],
    ) + ", '', "@ + column_text(table, Column::ProcessedAt) + "\nFROM "@ + named(table)
        + ";\nDROP TABLE "@ + named(table) + ";\nALTER TABLE "@ + named(table)
        + "_new RENAME TO "@ + named(table) + ";\nCOMMIT;"@
}

/// The migration of a table to one that keeps every combination of the columns of the key at
/// most once.
pub open spec fn migrate_sql(table: Table) -> Seq<char> {
    migrate_over(table, key_columns())
}

/// The creation of an index on the media id and the action.
pub open spec fn index_sql(table: Table) -> Seq<char> {
    "CREATE INDEX IF NOT EXISTS "@ + match table {
        Table::Movies => "idx_movie_radarr"@,
        Table::Episodes => "idx_episode_sonarr"@,
    } + " ON "@ + named(table) + "("@ + listed(table, seq![Column::MediaId, Column::Action])
        + ")"@
}

/// A query that yields a row if the table is there.
pub open spec fn search_sql(table: Table) -> Seq<char> {
    "SELECT 1 FROM sqlite_master WHERE type='table' AND name='"@ + named(table) + "'"@
}

pub(crate) proof fn lemma_lookup()
    ensures
        MOVIE_LOOKUP@ == lookup_sql(Table::Movies),
        EPISODE_LOOKUP@ == lookup_sql(Table::Episodes),
{
    reveal_with_fuel(equated, 4);
    reveal_strlit("SELECT 1 FROM processed_movie_subtitles
    WHERE radarr_id = ?1 AND language_code = ?2 AND action = ?3");
    reveal_strlit("SELECT 1 FROM processed_episode_subtitles
    WHERE sonarr_episode_id = ?1 AND language_code = ?2 AND action = ?3");
    reveal_strlit("SELECT 1 FROM ");
    reveal_strlit("\n    WHERE ");
    reveal_strlit(" AND ");
    reveal_strlit(" = ?");
    reveal_strlit("processed_movie_subtitles");
    reveal_strlit("processed_episode_subtitles");
    reveal_strlit("radarr_id");
    reveal_strlit("sonarr_episode_id");
    reveal_strlit("language_code");
    reveal_strlit("action");
    reveal_strlit("1");
    reveal_strlit("2");
    reveal_strlit("3");
    assert(MOVIE_LOOKUP@ =~= lookup_sql(Table::Movies));
    assert(EPISODE_LOOKUP@ =~= lookup_sql(Table::Episodes));
}

#[verifier::spinoff_prover]
#[verifier::rlimit(50)]
pub(crate) proof fn lemma_insert()
    ensures
        MOVIE_INSERT@ == insert_sql(Table::Movies),
        EPISODE_INSERT@ == insert_sql(Table::Episodes),
{
    reveal_with_fuel(listed, 8);
    reveal_with_fuel(numbered, 8);
    reveal_strlit("INSERT INTO processed_movie_subtitles
    (radarr_id, title, language_code, language_name, path, action, processed_at)
    VALUES (?1, ?2, ?3, ?4, ?5, ?6, ?7)
    ON CONFLICT(radarr_id, language_code, action) DO NOTHING");
    reveal_strlit("INSERT INTO processed_episode_subtitles
    (sonarr_episode_id, title, language_code, language_name, path, action, processed_at)
    VALUES (?1, ?2, ?3, ?4, ?5, ?6, ?7)
    ON CONFLICT(sonarr_episode_id, language_code, action) DO NOTHING");
    reveal_strlit("INSERT INTO ");
    reveal_strlit("\n    (");
    reveal_strlit(")\n    VALUES (");
    reveal_strlit(")\n    ON CONFLICT(");
    reveal_strlit(") DO NOTHING");
    reveal_strlit(", ");
    reveal_strlit(", ?");
    reveal_strlit("?");
    reveal_strlit("processed_movie_subtitles");
    reveal_strlit("processed_episode_subtitles");
    reveal_strlit("radarr_id");
    reveal_strlit("sonarr_episode_id");
    reveal_strlit("title");
    reveal_strlit("language_code");
    reveal_strlit("language_name");
    reveal_strlit("path");
    reveal_strlit("action");
    reveal_strlit("processed_at");
    reveal_strlit("1");
    reveal_strlit("2");
    reveal_strlit("3");
    reveal_strlit("4");
    reveal_strlit("5");
    reveal_strlit("6");
    reveal_strlit("7");
    assert(MOVIE_INSERT@ =~= insert_sql(Table::Movies));
    assert(EPISODE_INSERT@ =~= insert_sql(Table::Episodes));
}

pub(crate) proof fn lemma_questions(n: nat)
    ensures
        placeholders(n) == questions(n),
    decreases n,
{
    reveal_strlit("?");
    reveal_strlit(",?");
    if n > 1 {
        lemma_questions((n - 1) as nat);
    }
    assert(placeholders(n) =~= questions(n));
}

pub(crate) proof fn lemma_ids_ends()
    ensures
        MOVIE_IDS_HEAD@ == "SELECT DISTINCT "@ + column_text(Table::Movies, Column::MediaId) + " FROM "@ + named(Table::Movies) + "\n    WHERE "@ + column_text(Table::Movies, Column::MediaId) + " IN ("@,
        EPISODE_IDS_HEAD@ == "SELECT DISTINCT "@ + column_text(Table::Episodes, Column::MediaId) + " FROM "@ + named(Table::Episodes) + "\n    WHERE "@ + column_text(Table::Episodes, Column::MediaId) + " IN ("@,
        IDS_TAIL@ == ") AND "@ + column_text(Table::Movies, Column::Action) + " = ?"@,
{
    reveal_strlit("SELECT DISTINCT radarr_id FROM processed_movie_subtitles
    WHERE radarr_id IN (");
    reveal_strlit("SELECT DISTINCT sonarr_episode_id FROM processed_episode_subtitles
    WHERE sonarr_episode_id IN (");
    reveal_strlit(") AND action = ?");
    reveal_strlit("SELECT DISTINCT ");
    reveal_strlit(" FROM ");
    reveal_strlit("\n    WHERE ");
    reveal_strlit(" IN (");
    reveal_strlit(") AND ");
    reveal_strlit(" = ?");
    reveal_strlit("processed_movie_subtitles");
    reveal_strlit("processed_episode_subtitles");
    reveal_strlit("radarr_id");
    reveal_strlit("sonarr_episode_id");
    reveal_strlit("action");
    assert(MOVIE_IDS_HEAD@ =~= "SELECT DISTINCT "@ + column_text(Table::Movies, Column::MediaId) + " FROM "@ + named(Table::Movies) + "\n    WHERE "@ + column_text(Table::Movies, Column::MediaId) + " IN ("@);
    assert(EPISODE_IDS_HEAD@ =~= "SELECT DISTINCT "@ + column_text(Table::Episodes, Column::MediaId) + " FROM "@ + named(Table::Episodes) + "\n    WHERE "@ + column_text(Table::Episodes, Column::MediaId) + " IN ("@);
    assert(IDS_TAIL@ =~= ") AND "@ + column_text(Table::Movies, Column::Action) + " = ?"@);
}

#[verifier::spinoff_prover]
#[verifier::rlimit(50)]
pub(crate) proof fn lemma_create()
    ensures
        CREATE_MOVIE_TABLE@ == create_sql(Table::Movies),
        CREATE_EPISODE_TABLE@ == create_sql(Table::Episodes),
{
    reveal_with_fuel(listed, 4);
    reveal_strlit("CREATE TABLE IF NOT EXISTS processed_movie_subtitles (
    id INTEGER PRIMARY KEY AUTOINCREMENT,
    radarr_id INTEGER NOT NULL,
    title TEXT NOT NULL,
    language_code TEXT NOT NULL,
    language_name TEXT NOT NULL,
    path TEXT,
    action TEXT NOT NULL DEFAULT '',
    processed_at INTEGER NOT NULL,
    UNIQUE(radarr_id, language_code, action)
)");
    reveal_strlit("CREATE TABLE IF NOT EXISTS processed_episode_subtitles (
    id INTEGER PRIMARY KEY AUTOINCREMENT,
    sonarr_episode_id INTEGER NOT NULL,
    title TEXT NOT NULL,
    language_code TEXT NOT NULL,
    language_name TEXT NOT NULL,
    path TEXT,
    action TEXT NOT NULL DEFAULT '',
    processed_at INTEGER NOT NULL,
    UNIQUE(sonarr_episode_id, language_code, action)
)");
    reveal_strlit("CREATE TABLE IF NOT EXISTS ");
    reveal_strlit(" (\n    id INTEGER PRIMARY KEY AUTOINCREMENT,\n    ");
    reveal_strlit(" INTEGER NOT NULL,\n    title TEXT NOT NULL,\n    language_code TEXT NOT NULL,\n    language_name TEXT NOT NULL,\n    path TEXT,\n    action TEXT NOT NULL DEFAULT '',\n    processed_at INTEGER NOT NULL,\n    UNIQUE(");
    reveal_strlit(")\n)");
    reveal_strlit(", ");
    reveal_strlit("processed_movie_subtitles");
    reveal_strlit("processed_episode_subtitles");
    reveal_strlit("radarr_id");
    reveal_strlit("sonarr_episode_id");
    reveal_strlit("language_code");
    reveal_strlit("action");
    assert(CREATE_MOVIE_TABLE@ =~= create_sql(Table::Movies));
    assert(CREATE_EPISODE_TABLE@ =~= create_sql(Table::Episodes));
}

#[verifier::spinoff_prover]
#[verifier::rlimit(50)]
pub(crate) proof fn lemma_migrate_movie()
    ensures
        MIGRATE_MOVIE_TABLE@ == migrate_sql(Table::Movies),
{
    reveal_with_fuel(listed, 9);
    reveal_strlit("BEGIN;
CREATE TABLE processed_movie_subtitles_new (
    id INTEGER PRIMARY KEY AUTOINCREMENT,
    radarr_id INTEGER NOT NULL,
    title TEXT NOT NULL,
    language_code TEXT NOT NULL,
    language_name TEXT NOT NULL,
    path TEXT,
    action TEXT NOT NULL DEFAULT '',
    processed_at INTEGER NOT NULL,
    UNIQUE(radarr_id, language_code, action)
);
INSERT INTO processed_movie_subtitles_new
    (id, radarr_id, title, language_code, language_name, path, action, processed_at)
SELECT id, radarr_id, title, language_code, language_name, path, '', processed_at
FROM processed_movie_subtitles;
DROP TABLE processed_movie_subtitles;
ALTER TABLE processed_movie_subtitles_new RENAME TO processed_movie_subtitles;
COMMIT;");
    reveal_strlit("BEGIN;\nCREATE TABLE ");
    reveal_strlit("_new");
    reveal_strlit(";\nINSERT INTO ");
    reveal_strlit("_new\n    (");
    reveal_strlit(")\nSELECT ");
    reveal_strlit(", '', ");
    reveal_strlit("\nFROM ");
    reveal_strlit(";\nDROP TABLE ");
    reveal_strlit(";\nALTER TABLE ");
    reveal_strlit("_new RENAME TO ");
    reveal_strlit(";\nCOMMIT;");
    reveal_strlit(" (\n    id INTEGER PRIMARY KEY AUTOINCREMENT,\n    ");
    reveal_strlit(" INTEGER NOT NULL,\n    title TEXT NOT NULL,\n    language_code TEXT NOT NULL,\n    language_name TEXT NOT NULL,\n    path TEXT,\n    action TEXT NOT NULL DEFAULT '',\n    processed_at INTEGER NOT NULL,\n    UNIQUE(");
    reveal_strlit(")\n)");
    reveal_strlit(", ");
    reveal_strlit("processed_movie_subtitles");
    reveal_strlit("processed_episode_subtitles");
    reveal_strlit("id");
    reveal_strlit("radarr_id");
    reveal_strlit("sonarr_episode_id");
    reveal_strlit("title");
    reveal_strlit("language_code");
    reveal_strlit("language_name");
    reveal_strlit("path");
    reveal_strlit("action");
    reveal_strlit("processed_at");
    assert(MIGRATE_MOVIE_TABLE@ =~= migrate_sql(Table::Movies));
}

#[verifier::spinoff_prover]
#[verifier::rlimit(50)]
pub(crate) proof fn lemma_migrate_episode()
    ensures
        MIGRATE_EPISODE_TABLE@ == migrate_sql(Table::Episodes),
{
    reveal_with_fuel(listed, 9);
    reveal_strlit("BEGIN;
CREATE TABLE processed_episode_subtitles_new (
    id INTEGER PRIMARY KEY AUTOINCREMENT,
    sonarr_episode_id INTEGER NOT NULL,
    title TEXT NOT NULL,
    language_code TEXT NOT NULL,
    language_name TEXT NOT NULL,
    path TEXT,
    action TEXT NOT NULL DEFAULT '',
    processed_at INTEGER NOT NULL,
    UNIQUE(sonarr_episode_id, language_code, action)
);
INSERT INTO processed_episode_subtitles_new
    (id, sonarr_episode_id, title, language_code, language_name, path, action, processed_at)
SELECT id, sonarr_episode_id, title, language_code, language_name, path, '', processed_at
FROM processed_episode_subtitles;
DROP TABLE processed_episode_subtitles;
ALTER TABLE processed_episode_subtitles_new RENAME TO processed_episode_subtitles;
COMMIT;");
    reveal_strlit("BEGIN;\nCREATE TABLE ");
    reveal_strlit("_new");
    reveal_strlit(";\nINSERT INTO ");
    reveal_strlit("_new\n    (");
    reveal_strlit(")\nSELECT ");
    reveal_strlit(", '', ");
    reveal_strlit("\nFROM ");
    reveal_strlit(";\nDROP TABLE ");
    reveal_strlit(";\nALTER TABLE ");
    reveal_strlit("_new RENAME TO ");
    reveal_strlit(";\nCOMMIT;");
    reveal_strlit(" (\n    id INTEGER PRIMARY KEY AUTOINCREMENT,\n    ");
    reveal_strlit(" INTEGER NOT NULL,\n    title TEXT NOT NULL,\n    language_code TEXT NOT NULL,\n    language_name TEXT NOT NULL,\n    path TEXT,\n    action TEXT NOT NULL DEFAULT '',\n    processed_at INTEGER NOT NULL,\n    UNIQUE(");
    reveal_strlit(")\n)");
    reveal_strlit(", ");
    reveal_strlit("processed_movie_subtitles");
    reveal_strlit("processed_episode_subtitles");
    reveal_strlit("id");
    reveal_strlit("radarr_id");
    reveal_strlit("sonarr_episode_id");
    reveal_strlit("title");
    reveal_strlit("language_code");
    reveal_strlit("language_name");
    reveal_strlit("path");
    reveal_strlit("action");
    reveal_strlit("processed_at");
    assert(MIGRATE_EPISODE_TABLE@ =~= migrate_sql(Table::Episodes));
}

#[verifier::spinoff_prover]
#[verifier::rlimit(50)]
pub(crate) proof fn lemma_index()
    ensures
        CREATE_MOVIE_INDEX@ == index_sql(Table::Movies),
        CREATE_EPISODE_INDEX@ == index_sql(Table::Episodes),
{
    reveal_with_fuel(listed, 3);
    reveal_strlit("CREATE INDEX IF NOT EXISTS idx_movie_radarr ON processed_movie_subtitles(radarr_id, action)");
    reveal_strlit("CREATE INDEX IF NOT EXISTS idx_episode_sonarr ON processed_episode_subtitles(sonarr_episode_id, action)");
    reveal_strlit("CREATE INDEX IF NOT EXISTS ");
    reveal_strlit("idx_movie_radarr");
    reveal_strlit("idx_episode_sonarr");
    reveal_strlit(" ON ");
    reveal_strlit("(");
    reveal_strlit(")");
    reveal_strlit(", ");
    reveal_strlit("processed_movie_subtitles");
    reveal_strlit("processed_episode_subtitles");
    reveal_strlit("radarr_id");
    reveal_strlit("sonarr_episode_id");
    reveal_strlit("action");
    assert(CREATE_MOVIE_INDEX@ =~= index_sql(Table::Movies));
    assert(CREATE_EPISODE_INDEX@ =~= index_sql(Table::Episodes));
}

pub(crate) proof fn lemma_search()
    ensures
        MOVIE_SEARCH@ == search_sql(Table::Movies),
        EPISODE_SEARCH@ == search_sql(Table::Episodes),
{
    reveal_strlit("SELECT 1 FROM sqlite_master WHERE type='table' AND name='processed_movie_subtitles'");
    reveal_strlit("SELECT 1 FROM sqlite_master WHERE type='table' AND name='processed_episode_subtitles'");
    reveal_strlit("SELECT 1 FROM sqlite_master WHERE type='table' AND name='");
    reveal_strlit("'");
    reveal_strlit("processed_movie_subtitles");
    reveal_strlit("processed_episode_subtitles");
    assert(MOVIE_SEARCH@ =~= search_sql(Table::Movies));
    assert(EPISODE_SEARCH@ =~= search_sql(Table::Episodes));
}

} // verus!
