//! The steps, with answers made up.

use processed_subtitles::filter::{filter_unprocessed_movies, FilterStep};
use processed_subtitles::init::{init_db, located, InitStep};
use processed_subtitles::location::{get_db_path, PathStep};
use processed_subtitles::media::{AudioLanguageItem, Movie, Subtitle, Table};
use processed_subtitles::records::{Lookup, Mark, RecordedIds};
use processed_subtitles::setup::{
    column_exists, columns_query, create_tables, migrate_episode_table, migrate_movie_table,
    prepare_db, table_name, Change, SetupStep,
};
use processed_subtitles::statement::{placeholder_list, Value};

struct World {
    parent: fn(&str) -> Option<String>,
    create: fn(&str) -> Result<(), String>,
    variable: Option<&'static str>,
    data_dir: Option<&'static str>,
}

fn slash_parent(path: &str) -> Option<String> {
    path.rfind('/').map(|at| path[..at].to_string())
}

fn creates(_: &str) -> Result<(), String> {
    Ok(())
}

fn refuses(dir: &str) -> Result<(), String> {
    Err(format!("denied {}", dir))
}

fn find(world: &World, start: PathStep<String>) -> Result<String, String> {
    let mut step = start;
    loop {
        step = match step {
            PathStep::FindParent(asked) => {
                let parent = (world.parent)(&asked.path);
                asked.reply(parent)
            }
            PathStep::CreateDir(asked) => {
                let created = (world.create)(&asked.dir);
                asked.reply(created)
            }
            PathStep::ReadVariable(asked) => {
                assert_eq!(asked.name(), "BB_DATA_DIR");
                asked.reply(world.variable.map(|dir| dir.to_string()))
            }
            PathStep::JoinFile(asked) => {
                let path = format!("{}/{}", asked.dir, asked.file());
                asked.reply(path)
            }
            PathStep::FindDataDir(asked) => {
                assert_eq!(asked.project(), ("com", "mateoradman", "bazarr-bulk"));
                asked.reply(world.data_dir.map(|dir| dir.to_string()))
            }
            PathStep::Finished(outcome) => return outcome,
        };
    }
}

fn world(variable: Option<&'static str>, data_dir: Option<&'static str>) -> World {
    World { parent: slash_parent, create: creates, variable, data_dir }
}

#[test]
fn a_given_path_comes_first() {
    let world = world(Some("/env"), Some("/data"));
    assert_eq!(
        find(&world, get_db_path(Some("/x/y.db".to_string()))),
        Ok("/x/y.db".to_string())
    );
}

#[test]
fn the_variable_comes_second() {
    let world = world(Some("/env"), Some("/data"));
    assert_eq!(find(&world, get_db_path(None)), Ok("/env/database.db".to_string()));
}

#[test]
fn the_default_comes_last() {
    let world = world(None, Some("/data"));
    assert_eq!(find(&world, get_db_path(None)), Ok("/data/database.db".to_string()));
}

#[test]
fn no_default_directory() {
    let world = world(None, None);
    assert_eq!(
        find(&world, get_db_path(None)),
        Err("Failed to obtain a default database path".to_string())
    );
}

#[test]
fn directories_that_cannot_be_created() {
    let mut world = world(Some("/env"), Some("/data"));
    world.create = refuses;
    assert_eq!(
        find(&world, get_db_path(Some("/x/y.db".to_string()))),
        Err("Failed to create database directory: denied /x".to_string())
    );
    assert_eq!(
        find(&world, get_db_path(None)),
        Err("Failed to create database directory: denied /env".to_string())
    );
    world.variable = None;
    assert_eq!(
        find(&world, get_db_path(None)),
        Err("Failed to obtain a default database path".to_string())
    );
}

#[test]
fn a_path_without_a_parent_needs_no_directory() {
    let mut world = world(None, None);
    world.create = refuses;
    assert_eq!(find(&world, get_db_path(Some("y.db".to_string()))), Ok("y.db".to_string()));
}

#[test]
fn opening_finds_announces_and_prepares() {
    let world = world(Some("/env"), None);
    let step = match init_db(None) {
        InitStep::Locate(first) => located(find(&world, first)),
        _ => panic!("the path is not known yet"),
    };
    match step {
        InitStep::Open(due) => {
            assert_eq!(due.announcement(&due.path), "Using database at: /env/database.db");
            assert_eq!(due.reply(Ok::<i8, u8>(5)), Ok((5, prepare_db())));
        }
        _ => panic!("the path is known"),
    }
}

#[test]
fn opening_can_fail() {
    match located::<String>(Err("why".to_string())) {
        InitStep::Failed(reason) => assert_eq!(reason, "why"),
        _ => panic!("there is no path"),
    }
    match located(Ok("/x".to_string())) {
        InitStep::Open(due) => assert_eq!(due.reply(Err::<(), u8>(3)), Err(3)),
        _ => panic!("the path is known"),
    }
}

#[test]
fn placeholder_lists() {
    assert_eq!(placeholder_list(0), "");
    assert_eq!(placeholder_list(1), "?");
    assert_eq!(placeholder_list(3), "?,?,?");
}

#[test]
fn the_query_for_ids() {
    let request =
        RecordedIds { table: Table::Episodes, media_ids: vec![8, 9], action: "a".to_string() };
    let statement = request.statement();
    assert_eq!(
        statement.sql.split_whitespace().collect::<Vec<_>>().join(" "),
        "SELECT DISTINCT sonarr_episode_id FROM processed_episode_subtitles \
         WHERE sonarr_episode_id IN (?,?) AND action = ?"
    );
    assert_eq!(
        statement.params,
        vec![Value::Integer(8), Value::Integer(9), Value::Text("a".to_string())]
    );
    assert_eq!(statement.sql.matches('?').count(), statement.params.len());
}

#[test]
fn the_query_for_a_subtitle() {
    let lookup = Lookup {
        table: Table::Movies,
        media_id: u32::MAX,
        language_code: "en".to_string(),
        action: "a".to_string(),
    };
    let statement = lookup.statement();
    assert_eq!(
        statement.sql.split_whitespace().collect::<Vec<_>>().join(" "),
        "SELECT 1 FROM processed_movie_subtitles \
         WHERE radarr_id = ?1 AND language_code = ?2 AND action = ?3"
    );
    assert_eq!(
        statement.params,
        vec![
            Value::Integer(4294967295),
            Value::Text("en".to_string()),
            Value::Text("a".to_string())
        ]
    );
}

#[test]
fn replies_to_an_insertion() {
    assert_eq!(Mark::reply(Ok::<usize, u8>(0)), Ok(false));
    assert_eq!(Mark::reply(Ok::<usize, u8>(1)), Ok(true));
    assert_eq!(Mark::reply(Err::<usize, u8>(5)), Err(5));
}

#[test]
fn columns_are_compared_whole() {
    let columns = vec!["id".to_string(), "action".to_string()];
    assert!(column_exists(&columns, "action"));
    assert!(!column_exists(&columns, "Action"));
    assert!(!column_exists(&columns, "act"));
    assert!(!column_exists(&Vec::new(), "action"));
    assert_eq!(columns_query("t"), "PRAGMA table_info(\"t\")");
    assert_eq!(table_name(Table::Episodes), "processed_episode_subtitles");
}

#[test]
fn a_failed_search_finds_no_table() {
    let movies = match create_tables() {
        SetupStep::FindTable(search) => search,
        _ => panic!("the tables are looked for first"),
    };
    let episodes = match movies.reply(Err::<bool, u8>(1)) {
        SetupStep::FindTable(search) => search,
        _ => panic!("both tables are looked for"),
    };
    assert_eq!(episodes.table, Table::Episodes);
    match episodes.reply(Ok::<bool, u8>(true)) {
        SetupStep::Apply(sent) => {
            assert_eq!(sent.change, Change::CreateTable(Table::Movies));
            match sent.reply(Ok::<(), u8>(())) {
                Ok(SetupStep::ListColumns(search)) => {
                    assert_eq!(search.table, Table::Episodes);
                    assert_eq!(search.reply(Err::<Vec<String>, u8>(2)), Err(2));
                }
                _ => panic!("the episode table was found"),
            }
        }
        _ => panic!("the movie table was not found"),
    }
}

#[test]
fn a_failed_change_ends_the_preparation() {
    match prepare_db() {
        SetupStep::Apply(sent) => {
            assert_eq!(sent.change.sql(), "PRAGMA foreign_keys = ON");
            assert_eq!(sent.reply(Err::<(), u8>(9)), Err(9));
        }
        _ => panic!("foreign keys come first"),
    }
}

#[test]
fn migrations_are_batches() {
    assert!(Change::MigrateTable(Table::Movies).is_batch());
    assert!(!Change::CreateTable(Table::Movies).is_batch());
    assert_eq!(Change::MigrateTable(Table::Movies).sql(), migrate_movie_table());
    assert_eq!(Change::MigrateTable(Table::Episodes).sql(), migrate_episode_table());
}

#[test]
fn errors_end_the_filtering() {
    let movies = vec![Movie {
        radarr_id: 1,
        subtitles: vec![Subtitle {
            audio_language_item: AudioLanguageItem {
                name: "English".to_string(),
                code2: Some("en".to_string()),
            },
            path: None,
        }],
    }];
    let pending = match filter_unprocessed_movies(movies, "a".to_string()) {
        FilterStep::AskRecorded(pending) => pending,
        _ => panic!("a question is due"),
    };
    match pending.reply(Ok::<Vec<u32>, u8>(vec![1])) {
        Ok(FilterStep::AskSubtitle(pending)) => {
            assert_eq!(
                pending.request(),
                Lookup {
                    table: Table::Movies,
                    media_id: 1,
                    language_code: "en".to_string(),
                    action: "a".to_string()
                }
            );
            assert!(matches!(pending.reply(Err::<bool, u8>(4)), Err(4)));
        }
        _ => panic!("a question about the subtitle is due"),
    }
    let pending = match filter_unprocessed_movies(
        vec![Movie { radarr_id: 1, subtitles: Vec::new() }],
        "a".to_string(),
    ) {
        FilterStep::AskRecorded(pending) => pending,
        _ => panic!("a question is due"),
    };
    assert!(matches!(pending.reply(Err::<Vec<u32>, u8>(6)), Err(6)));
}
