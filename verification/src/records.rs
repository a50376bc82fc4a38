//! Looking up and recording processed subtitles.

use vstd::prelude::*;

use crate::media::{Subtitle, Table};
use crate::statement::{placeholder_list, placeholders, Statement, Value, ValueView};
use crate::store::{Key, Record};

verus! {

pub const MOVIE_LOOKUP: &'static str = "SELECT 1 FROM processed_movie_subtitles
    WHERE radarr_id = ?1 AND language_code = ?2 AND action = ?3";

pub const EPISODE_LOOKUP: &'static str = "SELECT 1 FROM processed_episode_subtitles
    WHERE sonarr_episode_id = ?1 AND language_code = ?2 AND action = ?3";

pub const MOVIE_INSERT: &'static str = "INSERT INTO processed_movie_subtitles
    (radarr_id, title, language_code, language_name, path, action, processed_at)
    VALUES (?1, ?2, ?3, ?4, ?5, ?6, ?7)
    ON CONFLICT(radarr_id, language_code, action) DO NOTHING";

pub const EPISODE_INSERT: &'static str = "INSERT INTO processed_episode_subtitles
    (sonarr_episode_id, title, language_code, language_name, path, action, processed_at)
    VALUES (?1, ?2, ?3, ?4, ?5, ?6, ?7)
    ON CONFLICT(sonarr_episode_id, language_code, action) DO NOTHING";

pub const MOVIE_IDS_HEAD: &'static str = "SELECT DISTINCT radarr_id FROM processed_movie_subtitles
    WHERE radarr_id IN (";

pub const EPISODE_IDS_HEAD: &'static str =
    "SELECT DISTINCT sonarr_episode_id FROM processed_episode_subtitles
    WHERE sonarr_episode_id IN (";

pub const IDS_TAIL: &'static str = ") AND action = ?";

/// Asks whether a table has a record with a given key.
#[derive(Debug, PartialEq, Eq)]
pub struct Lookup {
    pub table: Table,
    pub media_id: u32,
    pub language_code: String,
    pub action: String,
}

impl Lookup {
    /// The key that is looked for.
    pub open spec fn key(self) -> Key {
        Key {
            media_id: self.media_id as int,
            language_code: self.language_code@,
            action: self.action@,
        }
    }

    /// The query; the answer is yes if it yields a row.
    pub fn statement(&self) -> (statement: Statement)
        ensures
            statement.sql@ == match self.table {
                Table::Movies => MOVIE_LOOKUP@,
                Table::Episodes => EPISODE_LOOKUP@,
            },
            statement.bound() == seq![
                ValueView::Integer(self.media_id as int),
                ValueView::Text(self.language_code@),
                ValueView::Text(self.action@),
            ],
    {
        let sql = match self.table {
            Table::Movies => MOVIE_LOOKUP,
            Table::Episodes => EPISODE_LOOKUP,
        };
        Statement {
            sql: sql.to_owned(),
            params: vec![
                Value::Integer(self.media_id as i64),
                Value::Text(self.language_code.clone()),
                Value::Text(self.action.clone()),
            ],
        }
    }
}

/// Asks which of the given media a table has any record of, for one action.
#[derive(Debug, PartialEq, Eq)]
pub struct RecordedIds {
    pub table: Table,
    pub media_ids: Vec<u32>,
    pub action: String,
}

impl RecordedIds {
    /// The text of the query, with a question mark for each id.
    pub open spec fn text(self) -> Seq<char> {
        let head = match self.table {
            Table::Movies => MOVIE_IDS_HEAD@,
            Table::Episodes => EPISODE_IDS_HEAD@,
        };
        head + placeholders(self.media_ids@.len()) + IDS_TAIL@
    }

    /// The values for the question marks: the ids in their order, then the action.
    pub open spec fn values(self) -> Seq<ValueView> {
        self.media_ids@.map_values(|id: u32| ValueView::Integer(id as int)).push(
            ValueView::Text(self.action@),
        )
    }

    /// The query; it yields each of the ids at most once.
    pub fn statement(&self) -> (statement: Statement)
        ensures
            statement.sql@ == match self.table {
                Table::Movies => MOVIE_IDS_HEAD@,
                Table::Episodes => EPISODE_IDS_HEAD@,
            } + placeholders(self.media_ids@.len()) + IDS_TAIL@,
            statement.params@.len() == self.media_ids@.len() + 1,
            forall|i: int|
                0 <= i < self.media_ids@.len() ==> (#[trigger] statement.params@[i])@
                    == ValueView::Integer(self.media_ids@[i] as int),
            statement.params@.last()@ == ValueView::Text(self.action@),
            statement.sql@ == self.text(),
            statement.bound() == self.values(),
    {
        let head = match self.table {
            Table::Movies => MOVIE_IDS_HEAD,
            Table::Episodes => EPISODE_IDS_HEAD,
        };
        let mut sql = head.to_owned();
        let list = placeholder_list(self.media_ids.len());
        sql.append(list.as_str());
        sql.append(IDS_TAIL);
        let mut params: Vec<Value> = Vec::new();
        let mut i: usize = 0;
        while i < self.media_ids.len()
            invariant
                i <= self.media_ids@.len(),
                params@.len() == i,
                forall|k: int|
                    0 <= k < i ==> (#[trigger] params@[k])@ == ValueView::Integer(
                        self.media_ids@[k] as int,
                    ),
            decreases self.media_ids@.len() - i,
        {
            params.push(Value::Integer(self.media_ids[i] as i64));
            i = i + 1;
        }
        params.push(Value::Text(self.action.clone()));
        let statement = Statement { sql, params };
        assert(statement.bound() =~= self.values());
        statement
    }
}

/// A record to be made of a processed subtitle.
#[derive(Debug, PartialEq, Eq)]
pub struct Mark {
    pub table: Table,
    pub media_id: u32,
    pub title: String,
    pub language_code: String,
    pub language_name: String,
    pub path: Option<String>,
    pub action: String,
}

/// A path as the value that is bound for it.
pub open spec fn path_value(path: Option<Seq<char>>) -> ValueView {
    match path {
        Some(path) => ValueView::Text(path),
        None => ValueView::Null,
    }
}

/// An optional text, taken as characters.
pub open spec fn optional_text(text: Option<String>) -> Option<Seq<char>> {
    match text {
        Some(text) => Some(text@),
        None => None,
    }
}

impl Mark {
    /// The key of the record.
    pub open spec fn key(self) -> Key {
        Key {
            media_id: self.media_id as int,
            language_code: self.language_code@,
            action: self.action@,
        }
    }

    /// The row that is added at `now` under the row id `id`, if one is added.
    pub open spec fn record(self, id: int, now: u64) -> Record {
        Record {
            id,
            media_id: self.media_id as int,
            title: self.title@,
            language_code: self.language_code@,
            language_name: self.language_name@,
            path: optional_text(self.path),
            action: self.action@,
            processed_at: (now as i64) as int,
        }
    }

    /// The insertion, with the time in seconds since the epoch. A record that is
    /// already there under the same key is left as it is.
    pub fn statement(&self, now: u64) -> (statement: Statement)
        ensures
            statement.sql@ == match self.table {
                Table::Movies => MOVIE_INSERT@,
                Table::Episodes => EPISODE_INSERT@,
            },
            statement.bound() == seq![
                ValueView::Integer(self.media_id as int),
                ValueView::Text(self.title@),
                ValueView::Text(self.language_code@),
                ValueView::Text(self.language_name@),
                path_value(optional_text(self.path)),
                ValueView::Text(self.action@),
                ValueView::Integer((now as i64) as int),
            ],
            statement.params@.len() == 7,
            statement.params@[4]@ == match self.path {
                Some(path) => ValueView::Text(path@),
                None => ValueView::Null,
            },
    {
        let sql = match self.table {
            Table::Movies => MOVIE_INSERT,
            Table::Episodes => EPISODE_INSERT,
        };
        let path = match &self.path {
            Some(path) => Value::Text(path.clone()),
            None => Value::Null,
        };
        let statement = Statement {
            sql: sql.to_owned(),
            params: vec![
                Value::Integer(self.media_id as i64),
                Value::Text(self.title.clone()),
                Value::Text(self.language_code.clone()),
                Value::Text(self.language_name.clone()),
                path,
                Value::Text(self.action.clone()),
                Value::Integer(#[verifier::truncate] (now as i64)),
            ],
        };
        assert(statement.bound()[4] == statement.params@[4]@);
        statement
    }

    /// What the insertion came to, from the number of rows that it changed: true if
    /// the record is new.
    pub fn reply<E>(changed: Result<usize, E>) -> (marked: Result<bool, E>)
        ensures
            marked == match changed {
                Ok(rows) => Ok::<bool, E>(rows > 0),
                Err(error) => Err(error),
            },
    {
        match changed {
            Ok(rows) => Ok(rows > 0),
            Err(error) => Err(error),
        }
    }
}

/// How marking a subtitle goes on.
#[derive(Debug, PartialEq, Eq)]
pub enum MarkStep {
    /// There is nothing to record, and the answer is known.
    Finished(bool),
    /// The record is to be inserted; [`Mark::reply`] then gives the answer.
    Insert(Mark),
}

/// Marking a subtitle of a medium: a subtitle without a language code is not
/// recorded, any other is recorded under its code.
pub open spec fn marks(
    step: MarkStep,
    table: Table,
    media_id: u32,
    title: String,
    subtitle: Subtitle,
    action: String,
) -> bool {
    match subtitle.audio_language_item.code2 {
        None => step == MarkStep::Finished(false),
        Some(code) => step == MarkStep::Insert(
            Mark {
                table,
                media_id,
                title,
                language_code: code,
                language_name: subtitle.audio_language_item.name,
                path: subtitle.path,
                action,
            },
        ),
    }
}

fn mark_subtitle(
    table: Table,
    media_id: u32,
    title: String,
    subtitle: Subtitle,
    action: String,
) -> (step: MarkStep)
    ensures
        marks(step, table, media_id, title, subtitle, action),
{
    let language = subtitle.audio_language_item;
    match language.code2 {
        None => MarkStep::Finished(false),
        Some(code) => MarkStep::Insert(
            Mark {
                table,
                media_id,
                title,
                language_code: code,
                language_name: language.name,
                path: subtitle.path,
                action,
            },
        ),
    }
}

/// Whether a subtitle of a movie has been processed by an action: the question to
/// put to the database, whose answer is the result.
pub fn is_movie_subtitle_processed(
    radarr_id: u32,
    language_code: String,
    action: String,
) -> (lookup: Lookup)
    ensures
        lookup == (Lookup { table: Table::Movies, media_id: radarr_id, language_code, action }),
{
    Lookup { table: Table::Movies, media_id: radarr_id, language_code, action }
}

/// Whether a subtitle of an episode has been processed by an action: the question to
/// put to the database, whose answer is the result.
pub fn is_episode_subtitle_processed(
    sonarr_episode_id: u32,
    language_code: String,
    action: String,
) -> (lookup: Lookup)
    ensures
        lookup == (Lookup {
            table: Table::Episodes,
            media_id: sonarr_episode_id,
            language_code,
            action,
        }),
{
    Lookup { table: Table::Episodes, media_id: sonarr_episode_id, language_code, action }
}

/// Records that a subtitle of an episode has been processed by an action.
pub fn mark_episode_subtitle_processed(
    sonarr_episode_id: u32,
    title: String,
    subtitle: Subtitle,
    action: String,
) -> (step: MarkStep)
    ensures
        marks(step, Table::Episodes, sonarr_episode_id, title, subtitle, action),
        step == match subtitle.audio_language_item.code2 {
            None => MarkStep::Finished(false),
            Some(code) => MarkStep::Insert(
                Mark {
                    table: Table::Episodes,
                    media_id: sonarr_episode_id,
                    title,
                    language_code: code,
                    language_name: subtitle.audio_language_item.name,
                    path: subtitle.path,
                    action,
                },
            ),
        },
{
    mark_subtitle(Table::Episodes, sonarr_episode_id, title, subtitle, action)
}

/// Records that a subtitle of a movie has been processed by an action.
pub fn mark_movie_subtitle_processed(
    radarr_id: u32,
    title: String,
    subtitle: Subtitle,
    action: String,
) -> (step: MarkStep)
    ensures
        marks(step, Table::Movies, radarr_id, title, subtitle, action),
        step == match subtitle.audio_language_item.code2 {
            None => MarkStep::Finished(false),
            Some(code) => MarkStep::Insert(
                Mark {
                    table: Table::Movies,
                    media_id: radarr_id,
                    title,
                    language_code: code,
                    language_name: subtitle.audio_language_item.name,
                    path: subtitle.path,
                    action,
                },
            ),
        },
{
    mark_subtitle(Table::Movies, radarr_id, title, subtitle, action)
}

} // verus!
