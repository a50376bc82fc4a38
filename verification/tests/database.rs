//! The steps, carried out on a database in memory.

use processed_subtitles::filter::{
    filter_unprocessed, filter_unprocessed_episodes, filter_unprocessed_movies, EpisodesNotice,
    FilterStep,
};
use processed_subtitles::media::{AudioLanguageItem, Episode, Media, Movie, Subtitle, Table, Tagged};
use processed_subtitles::records::{
    is_episode_subtitle_processed, is_movie_subtitle_processed, mark_episode_subtitle_processed,
    mark_movie_subtitle_processed, Lookup, Mark, MarkStep, RecordedIds,
};
use processed_subtitles::setup::{prepare_db, Change, SetupStep};
use processed_subtitles::statement::{Statement, Value};
use rusqlite::{params_from_iter, Connection};

const LEGACY_MOVIES: &str = "CREATE TABLE processed_movie_subtitles (
    id INTEGER PRIMARY KEY AUTOINCREMENT, radarr_id INTEGER NOT NULL, title TEXT NOT NULL,
    language_code TEXT NOT NULL, language_name TEXT NOT NULL, path TEXT,
    processed_at INTEGER NOT NULL)";

const LEGACY_EPISODES: &str = "CREATE TABLE processed_episode_subtitles (
    id INTEGER PRIMARY KEY AUTOINCREMENT, sonarr_episode_id INTEGER NOT NULL, title TEXT NOT NULL,
    language_code TEXT NOT NULL, language_name TEXT NOT NULL, path TEXT,
    processed_at INTEGER NOT NULL)";

fn values(statement: &Statement) -> Vec<rusqlite::types::Value> {
    let mut values = Vec::new();
    for value in &statement.params {
        values.push(match value {
            Value::Null => rusqlite::types::Value::Null,
            Value::Integer(n) => rusqlite::types::Value::Integer(*n),
            Value::Text(text) => rusqlite::types::Value::Text(text.clone()),
        });
    }
    values
}

fn set_up(conn: &Connection) -> Result<bool, rusqlite::Error> {
    set_up_with(conn, false)
}

/// Prepares a database; if `blind`, every search for a table fails.
fn set_up_with(conn: &Connection, blind: bool) -> Result<bool, rusqlite::Error> {
    let mut warned = false;
    let mut step = prepare_db();
    loop {
        step = match step {
            SetupStep::Apply(sent) => {
                let made = if sent.change.is_batch() {
                    conn.execute_batch(sent.change.sql())
                } else {
                    conn.execute(sent.change.sql(), []).map(|_| ())
                };
                sent.reply(made)?
            }
            SetupStep::FindTable(search) => {
                if blind {
                    search.reply(Err::<bool, rusqlite::Error>(rusqlite::Error::InvalidQuery))
                } else {
                    search.reply(conn.query_row(search.sql(), [], |_| Ok(true)))
                }
            }
            SetupStep::ListColumns(search) => {
                let mut stmt = conn.prepare(&search.sql())?;
                let columns: Result<Vec<String>, rusqlite::Error> =
                    stmt.query_map([], |row| row.get::<_, String>(1))?.collect();
                search.reply(columns)?
            }
            SetupStep::Warn(due) => {
                assert!(due.text().contains("migrated to support per-action tracking"));
                warned = true;
                due.reply()
            }
            SetupStep::Ready => return Ok(warned),
        };
    }
}

fn fresh() -> Connection {
    let conn = Connection::open_in_memory().unwrap();
    assert!(!set_up(&conn).unwrap());
    conn
}

fn look_up(conn: &Connection, lookup: &Lookup) -> Result<bool, rusqlite::Error> {
    let statement = lookup.statement();
    let mut stmt = conn.prepare(&statement.sql)?;
    stmt.exists(params_from_iter(values(&statement)))
}

fn recorded(conn: &Connection, request: &RecordedIds) -> Result<Vec<u32>, rusqlite::Error> {
    let statement = request.statement();
    let mut stmt = conn.prepare(&statement.sql)?;
    let ids = stmt.query_map(params_from_iter(values(&statement)), |row| row.get(0))?.collect();
    ids
}

fn insert(conn: &Connection, step: MarkStep, now: u64) -> bool {
    match step {
        MarkStep::Finished(done) => done,
        MarkStep::Insert(mark) => {
            let statement = mark.statement(now);
            Mark::reply(conn.execute(&statement.sql, params_from_iter(values(&statement)))).unwrap()
        }
    }
}

fn mark_movie(conn: &Connection, id: u32, code: &str, action: &str) -> bool {
    let step = mark_movie_subtitle_processed(
        id,
        "title".to_string(),
        subtitle(Some(code)),
        action.to_string(),
    );
    insert(conn, step, 7)
}

fn mark_episode(conn: &Connection, id: u32, code: &str, action: &str) -> bool {
    let step = mark_episode_subtitle_processed(
        id,
        "title".to_string(),
        subtitle(Some(code)),
        action.to_string(),
    );
    insert(conn, step, 7)
}

fn movie_done(conn: &Connection, id: u32, code: &str, action: &str) -> bool {
    look_up(conn, &is_movie_subtitle_processed(id, code.to_string(), action.to_string())).unwrap()
}

fn episode_done(conn: &Connection, id: u32, code: &str, action: &str) -> bool {
    look_up(conn, &is_episode_subtitle_processed(id, code.to_string(), action.to_string())).unwrap()
}

fn filter<M: Media>(conn: &Connection, start: FilterStep<M>) -> (Vec<u32>, usize) {
    let mut asked = 0;
    let mut step = start;
    loop {
        step = match step {
            FilterStep::AskRecorded(pending) => {
                let ids = recorded(conn, &pending.request());
                asked += 1;
                match pending.reply(ids) {
                    Ok(next) => next,
                    Err(error) => panic!("{}", error),
                }
            }
            FilterStep::AskSubtitle(pending) => {
                let processed = look_up(conn, &pending.request());
                asked += 1;
                match pending.reply(processed) {
                    Ok(next) => next,
                    Err(error) => panic!("{}", error),
                }
            }
            FilterStep::Finished(items) => {
                return (items.iter().map(|item| item.id()).collect(), asked);
            }
        };
    }
}

fn subtitle(code: Option<&str>) -> Subtitle {
    Subtitle {
        audio_language_item: AudioLanguageItem {
            name: "Name".to_string(),
            code2: code.map(|code| code.to_string()),
        },
        path: Some("/a.srt".to_string()),
    }
}

fn movie(id: u32, codes: &[Option<&str>]) -> Movie {
    Movie { radarr_id: id, subtitles: codes.iter().map(|code| subtitle(*code)).collect() }
}

fn episode(id: u32, codes: &[Option<&str>]) -> Episode {
    Episode { sonarr_episode_id: id, subtitles: codes.iter().map(|code| subtitle(*code)).collect() }
}

#[test]
fn a_marked_subtitle_is_processed() {
    let conn = fresh();
    assert!(!movie_done(&conn, 1, "en", "ocr-fixes"));
    assert!(mark_movie(&conn, 1, "en", "ocr-fixes"));
    assert!(movie_done(&conn, 1, "en", "ocr-fixes"));
    assert!(!movie_done(&conn, 2, "en", "ocr-fixes"));
    assert!(!movie_done(&conn, 1, "de", "ocr-fixes"));
    assert!(!movie_done(&conn, 1, "en", "remove-emoji"));
    assert!(!episode_done(&conn, 1, "en", "ocr-fixes"));
    assert!(mark_episode(&conn, 1, "en", "ocr-fixes"));
    assert!(episode_done(&conn, 1, "en", "ocr-fixes"));
}

#[test]
fn marking_again_changes_nothing() {
    let conn = fresh();
    assert!(mark_movie(&conn, 1, "en", "a"));
    assert!(!mark_movie(&conn, 1, "en", "a"));
    assert!(mark_movie(&conn, 1, "en", "b"));
    let count: i64 = conn
        .query_row("SELECT COUNT(*) FROM processed_movie_subtitles", [], |row| row.get(0))
        .unwrap();
    assert_eq!(count, 2);
}

#[test]
fn a_subtitle_without_a_code_is_not_recorded() {
    let conn = fresh();
    let step =
        mark_movie_subtitle_processed(1, "t".to_string(), subtitle(None), "a".to_string());
    assert!(!insert(&conn, step, 7));
    let count: i64 = conn
        .query_row("SELECT COUNT(*) FROM processed_movie_subtitles", [], |row| row.get(0))
        .unwrap();
    assert_eq!(count, 0);
}

#[test]
fn a_record_holds_what_was_given() {
    let conn = fresh();
    let sub = Subtitle {
        audio_language_item: AudioLanguageItem {
            name: "English".to_string(),
            code2: Some("en".to_string()),
        },
        path: None,
    };
    let step = mark_episode_subtitle_processed(9, "Pilot".to_string(), sub, "fix".to_string());
    assert!(insert(&conn, step, 1_700_000_000));
    let row: (u32, String, String, String, Option<String>, String, i64) = conn
        .query_row(
            "SELECT sonarr_episode_id, title, language_code, language_name, path, action,
                processed_at FROM processed_episode_subtitles",
            [],
            |row| {
                Ok((
                    row.get(0)?,
                    row.get(1)?,
                    row.get(2)?,
                    row.get(3)?,
                    row.get(4)?,
                    row.get(5)?,
                    row.get(6)?,
                ))
            },
        )
        .unwrap();
    assert_eq!(
        row,
        (
            9,
            "Pilot".to_string(),
            "en".to_string(),
            "English".to_string(),
            None,
            "fix".to_string(),
            1_700_000_000
        )
    );
}

#[test]
fn movies_with_something_left_are_kept_in_order() {
    let conn = fresh();
    mark_movie(&conn, 1, "en", "a");
    mark_movie(&conn, 2, "en", "a");
    mark_movie(&conn, 4, "xx", "a");
    mark_movie(&conn, 5, "en", "b");
    let movies = vec![
        movie(5, &[Some("en")]),
        movie(1, &[Some("en"), None]),
        movie(2, &[None, Some("en"), Some("de"), Some("fr")]),
        movie(3, &[]),
        movie(4, &[None]),
    ];
    let (kept, asked) = filter(&conn, filter_unprocessed_movies(movies, "a".to_string()));
    assert_eq!(kept, vec![5, 2, 3]);
    assert_eq!(asked, 4);
}

#[test]
fn episodes_with_something_left_are_kept_in_order() {
    let conn = fresh();
    mark_episode(&conn, 1, "en", "a");
    mark_episode(&conn, 1, "de", "a");
    mark_episode(&conn, 2, "en", "a");
    let episodes = vec![
        episode(2, &[Some("en"), Some("de")]),
        episode(1, &[Some("en"), Some("de")]),
        episode(2, &[Some("en")]),
        episode(7, &[Some("en")]),
    ];
    let (kept, asked) = filter(&conn, filter_unprocessed_episodes(episodes, "a".to_string()).1);
    assert_eq!(kept, vec![2, 7]);
    assert_eq!(asked, 6);
}

#[test]
fn movies_and_episodes_do_not_mix() {
    let conn = fresh();
    mark_movie(&conn, 1, "en", "a");
    let episodes = vec![episode(1, &[Some("en")])];
    let (kept, _) = filter(&conn, filter_unprocessed_episodes(episodes, "a".to_string()).1);
    assert_eq!(kept, vec![1]);
}

#[test]
fn actions_are_tracked_independently() {
    let conn = fresh();
    mark_movie(&conn, 1, "en", "a");
    let (kept, _) =
        filter(&conn, filter_unprocessed_movies(vec![movie(1, &[Some("en")])], "a".to_string()));
    assert_eq!(kept, Vec::<u32>::new());
    let (kept, _) =
        filter(&conn, filter_unprocessed_movies(vec![movie(1, &[Some("en")])], "b".to_string()));
    assert_eq!(kept, vec![1]);
}

#[test]
fn nothing_is_asked_about_no_items() {
    let conn = fresh();
    let (kept, asked) = filter(&conn, filter_unprocessed_movies(Vec::new(), "a".to_string()));
    assert_eq!((kept, asked), (Vec::new(), 0));
}

#[test]
fn only_ids_asked_about_are_reported() {
    let conn = fresh();
    mark_movie(&conn, 1, "en", "a");
    mark_movie(&conn, 1, "de", "a");
    mark_movie(&conn, 2, "en", "a");
    match filter_unprocessed_movies(
        vec![movie(1, &[Some("en")]), movie(3, &[])],
        "a".to_string(),
    ) {
        FilterStep::AskRecorded(pending) => {
            assert_eq!(pending.request().media_ids, vec![1, 3]);
            assert_eq!(recorded(&conn, &pending.request()).unwrap(), vec![1]);
        }
        _ => panic!("a question is due"),
    }
}

#[test]
fn preparing_twice_changes_nothing() {
    let conn = fresh();
    mark_movie(&conn, 1, "en", "a");
    assert!(!set_up(&conn).unwrap());
    assert!(movie_done(&conn, 1, "en", "a"));
}

#[test]
fn both_indexes_are_created() {
    let conn = fresh();
    let count: i64 = conn
        .query_row(
            "SELECT COUNT(*) FROM sqlite_master WHERE type = 'index'
                AND name IN ('idx_movie_radarr', 'idx_episode_sonarr')",
            [],
            |row| row.get(0),
        )
        .unwrap();
    assert_eq!(count, 2);
}

#[test]
fn a_legacy_movie_table_is_migrated() {
    let conn = Connection::open_in_memory().unwrap();
    conn.execute_batch(LEGACY_MOVIES).unwrap();
    conn.execute_batch(
        "INSERT INTO processed_movie_subtitles VALUES (4, 1, 't', 'en', 'English', '/p', 99)",
    )
    .unwrap();
    assert!(set_up(&conn).unwrap());
    let row: (i64, u32, String, String, Option<String>, String, i64) = conn
        .query_row(
            "SELECT id, radarr_id, title, language_code, path, action, processed_at
                FROM processed_movie_subtitles",
            [],
            |row| {
                Ok((
                    row.get(0)?,
                    row.get(1)?,
                    row.get(2)?,
                    row.get(3)?,
                    row.get(4)?,
                    row.get(5)?,
                    row.get(6)?,
                ))
            },
        )
        .unwrap();
    assert_eq!(
        row,
        (4, 1, "t".to_string(), "en".to_string(), Some("/p".to_string()), "".to_string(), 99)
    );
    assert!(movie_done(&conn, 1, "en", ""));
    assert!(!movie_done(&conn, 1, "en", "a"));
    let (kept, _) =
        filter(&conn, filter_unprocessed_movies(vec![movie(1, &[Some("en")])], "a".to_string()));
    assert_eq!(kept, vec![1]);
    assert!(!set_up(&conn).unwrap());
}

#[test]
fn a_legacy_episode_table_is_migrated() {
    let conn = Connection::open_in_memory().unwrap();
    conn.execute_batch(LEGACY_EPISODES).unwrap();
    conn.execute_batch(
        "INSERT INTO processed_episode_subtitles VALUES (4, 1, 't', 'en', 'English', NULL, 99)",
    )
    .unwrap();
    assert!(set_up(&conn).unwrap());
    assert!(episode_done(&conn, 1, "en", ""));
    assert!(!episode_done(&conn, 1, "en", "a"));
    assert!(mark_movie(&conn, 1, "en", "a"));
}

#[test]
fn a_migration_with_a_repeated_key_fails() {
    let conn = Connection::open_in_memory().unwrap();
    conn.execute_batch(LEGACY_MOVIES).unwrap();
    conn.execute_batch(
        "INSERT INTO processed_movie_subtitles VALUES (1, 1, 't', 'en', 'English', NULL, 1);
        INSERT INTO processed_movie_subtitles VALUES (2, 1, 't', 'en', 'English', NULL, 2)",
    )
    .unwrap();
    assert!(set_up(&conn).is_err());
}

#[test]
fn an_overlooked_legacy_table_fails() {
    let conn = Connection::open_in_memory().unwrap();
    conn.execute_batch(LEGACY_EPISODES).unwrap();
    assert!(set_up_with(&conn, true).is_err());
}

#[test]
fn overlooking_a_current_table_does_no_harm() {
    let conn = fresh();
    mark_movie(&conn, 1, "en", "a");
    assert!(!set_up_with(&conn, true).unwrap());
    assert!(movie_done(&conn, 1, "en", "a"));
}

#[test]
fn foreign_keys_are_enabled() {
    let conn = Connection::open_in_memory().unwrap();
    conn.execute_batch("PRAGMA foreign_keys = OFF").unwrap();
    conn.execute(Change::EnableForeignKeys.sql(), []).unwrap();
    let on: i64 = conn.query_row("PRAGMA foreign_keys", [], |row| row.get(0)).unwrap();
    assert_eq!(on, 1);
}

#[test]
fn a_taken_name_stops_a_migration() {
    let conn = Connection::open_in_memory().unwrap();
    conn.execute_batch(LEGACY_MOVIES).unwrap();
    conn.execute_batch("CREATE TABLE processed_movie_subtitles_new (x INTEGER)").unwrap();
    assert!(set_up(&conn).is_err());
}

#[test]
fn a_refused_episode_migration_leaves_the_movies_migrated() {
    let conn = Connection::open_in_memory().unwrap();
    conn.execute_batch(LEGACY_MOVIES).unwrap();
    conn.execute_batch(LEGACY_EPISODES).unwrap();
    conn.execute_batch(
        "INSERT INTO processed_movie_subtitles VALUES (1, 1, 't', 'en', 'English', NULL, 1);
        INSERT INTO processed_episode_subtitles VALUES (1, 1, 't', 'en', 'English', NULL, 1);
        INSERT INTO processed_episode_subtitles VALUES (2, 1, 't', 'en', 'English', NULL, 2)",
    )
    .unwrap();
    assert!(set_up(&conn).is_err());
    conn.execute_batch("ROLLBACK").unwrap();
    assert!(movie_done(&conn, 1, "en", ""));
    let lookup = is_episode_subtitle_processed(1, "en".to_string(), "".to_string());
    assert!(look_up(&conn, &lookup).is_err());
    let count: i64 = conn
        .query_row("SELECT COUNT(*) FROM processed_episode_subtitles", [], |row| row.get(0))
        .unwrap();
    assert_eq!(count, 2);
}

#[test]
fn tables_that_are_missing_or_old_cannot_be_asked() {
    let conn = Connection::open_in_memory().unwrap();
    conn.execute_batch(LEGACY_MOVIES).unwrap();
    let old = is_movie_subtitle_processed(1, "en".to_string(), "a".to_string());
    assert!(look_up(&conn, &old).is_err());
    let missing = is_episode_subtitle_processed(1, "en".to_string(), "a".to_string());
    assert!(look_up(&conn, &missing).is_err());
    match filter_unprocessed_movies(vec![movie(1, &[Some("en")])], "a".to_string()) {
        FilterStep::AskRecorded(pending) => {
            let ids = recorded(&conn, &pending.request());
            assert!(ids.is_err());
            assert!(pending.reply(ids).is_err());
        }
        _ => panic!("a question is due"),
    }
    match mark_movie_subtitle_processed(
        1,
        "t".to_string(),
        subtitle(Some("en")),
        "a".to_string(),
    ) {
        MarkStep::Insert(mark) => {
            let statement = mark.statement(7);
            let changed = conn.execute(&statement.sql, params_from_iter(values(&statement)));
            assert!(Mark::reply(changed).is_err());
        }
        _ => panic!("the subtitle has a code"),
    }
    let (kept, asked) =
        filter(&conn, filter_unprocessed_episodes(Vec::new(), "a".to_string()).1);
    assert_eq!((kept, asked), (Vec::new(), 0));
}

#[test]
fn more_ids_than_a_query_can_bind_are_refused() {
    let conn = fresh();
    let ids: Vec<u32> = (0..300_000).collect();
    let request =
        RecordedIds { table: Table::Movies, media_ids: ids, action: "a".to_string() };
    assert!(recorded(&conn, &request).is_err());
}

#[test]
fn the_notice_counts_every_episode() {
    let (notice, _) = filter_unprocessed_episodes(Vec::new(), "a".to_string());
    assert_eq!(notice, EpisodesNotice::NothingToFilter);
    assert_eq!(notice.text(), "No episodes to filter");
    let mut episodes = Vec::new();
    for _ in 0..12 {
        episodes.push(episode(4, &[]));
    }
    let (notice, _) = filter_unprocessed_episodes(episodes, "a".to_string());
    assert_eq!(notice, EpisodesNotice::Checking(12));
    assert_eq!(notice.text(), "Checking 12 episodes in database");
    assert_eq!(EpisodesNotice::Checking(1090).text(), "Checking 1090 episodes in database");
    let most = EpisodesNotice::Checking(usize::MAX).text();
    assert_eq!(most, format!("Checking {} episodes in database", usize::MAX));
}

#[test]
fn answers_that_change_still_pick_from_the_items() {
    let items = vec![
        movie(3, &[Some("en")]),
        movie(1, &[Some("en"), Some("de")]),
        movie(3, &[Some("en")]),
        movie(2, &[]),
    ];
    let pending = match filter_unprocessed_movies(items, "a".to_string()) {
        FilterStep::AskRecorded(pending) => pending,
        _ => panic!("a question is due"),
    };
    let mut answers = vec![true, false, true, true];
    let mut step = pending.reply(Ok::<Vec<u32>, u8>(vec![3, 1])).unwrap_or_else(|_| panic!("error"));
    loop {
        step = match step {
            FilterStep::AskSubtitle(pending) => {
                let answer = answers.remove(0);
                pending.reply(Ok::<bool, u8>(answer)).unwrap_or_else(|_| panic!("error"))
            }
            FilterStep::Finished(kept) => {
                let ids: Vec<u32> = kept.iter().map(|item| item.radarr_id).collect();
                assert_eq!(ids, vec![1, 2]);
                return;
            }
            FilterStep::AskRecorded(_) => panic!("this was asked"),
        };
    }
}

#[test]
fn an_overlooked_legacy_table_with_an_index_passes() {
    let conn = Connection::open_in_memory().unwrap();
    conn.execute_batch(LEGACY_EPISODES).unwrap();
    conn.execute_batch(
        "CREATE INDEX idx_episode_sonarr ON processed_episode_subtitles(sonarr_episode_id)",
    )
    .unwrap();
    assert!(!set_up_with(&conn, true).unwrap());
    let lookup = is_episode_subtitle_processed(1, "en".to_string(), "a".to_string());
    assert!(look_up(&conn, &lookup).is_err());
    assert!(set_up(&conn).unwrap());
    assert!(!episode_done(&conn, 1, "en", "a"));
}

#[test]
fn a_migration_drops_the_old_index() {
    let conn = Connection::open_in_memory().unwrap();
    conn.execute_batch(LEGACY_MOVIES).unwrap();
    conn.execute_batch("CREATE INDEX idx_movie_radarr ON processed_movie_subtitles(radarr_id)")
        .unwrap();
    assert!(set_up(&conn).unwrap());
    let columns: i64 = conn
        .query_row("SELECT COUNT(*) FROM pragma_index_info('idx_movie_radarr')", [], |row| {
            row.get(0)
        })
        .unwrap();
    assert_eq!(columns, 2);
}

#[test]
fn migrating_a_current_table_empties_the_actions() {
    let conn = fresh();
    mark_movie(&conn, 1, "en", "a");
    mark_movie(&conn, 2, "en", "b");
    conn.execute_batch(Change::MigrateTable(Table::Movies).sql()).unwrap();
    assert!(movie_done(&conn, 1, "en", ""));
    assert!(movie_done(&conn, 2, "en", ""));
    assert!(!movie_done(&conn, 1, "en", "a"));
    mark_movie(&conn, 1, "en", "a");
    assert!(conn.execute_batch(Change::MigrateTable(Table::Movies).sql()).is_err());
}

#[test]
fn a_missing_table_cannot_be_migrated() {
    let conn = Connection::open_in_memory().unwrap();
    assert!(conn.execute_batch(Change::MigrateTable(Table::Episodes).sql()).is_err());
}

#[test]
fn row_ids_are_distinct() {
    let conn = fresh();
    mark_movie(&conn, 1, "en", "a");
    mark_movie(&conn, 1, "en", "a");
    mark_movie(&conn, 1, "de", "a");
    mark_movie(&conn, 2, "en", "a");
    let count: i64 = conn
        .query_row("SELECT COUNT(DISTINCT id) FROM processed_movie_subtitles", [], |row| {
            row.get(0)
        })
        .unwrap();
    assert_eq!(count, 3);
}

#[test]
fn a_movie_without_codes_is_not_marked_away() {
    let conn = fresh();
    for _ in 0..2 {
        let step =
            mark_movie_subtitle_processed(1, "t".to_string(), subtitle(None), "a".to_string());
        assert_eq!(step, MarkStep::Finished(false));
        assert!(!insert(&conn, step, 7));
    }
    let (kept, asked) =
        filter(&conn, filter_unprocessed_movies(vec![movie(1, &[None, None])], "a".to_string()));
    assert_eq!((kept, asked), (vec![1], 1));
}

#[test]
fn episode_marks_do_not_touch_movies() {
    let conn = fresh();
    mark_movie(&conn, 1, "en", "a");
    mark_episode(&conn, 1, "de", "a");
    let movies = vec![movie(1, &[Some("en"), Some("de")])];
    let (kept, _) = filter(&conn, filter_unprocessed_movies(movies, "a".to_string()));
    assert_eq!(kept, vec![1]);
}

#[test]
fn tagged_media_are_handed_back_with_their_tags() {
    let films = vec![
        Tagged { item: movie(3, &[Some("en")]), tag: "Metropolis" },
        Tagged { item: movie(4, &[]), tag: "M" },
    ];
    let pending = match filter_unprocessed(films, "a".to_string()) {
        FilterStep::AskRecorded(pending) => pending,
        _ => panic!("a question is due"),
    };
    assert_eq!(pending.request().table, Table::Movies);
    assert_eq!(pending.request().media_ids, vec![3, 4]);
    let next = match pending.reply(Ok::<Vec<u32>, u8>(vec![3])) {
        Ok(FilterStep::AskSubtitle(next)) => next,
        _ => panic!("a question about the subtitle is due"),
    };
    match next.reply(Ok::<bool, u8>(true)) {
        Ok(FilterStep::Finished(kept)) => {
            assert_eq!(kept, vec![Tagged { item: movie(4, &[]), tag: "M" }]);
        }
        _ => panic!("nothing is left to ask"),
    }
}
