//! What the statements of this crate ask for and what they store, in terms of the arguments
//! that they are made for.

use vstd::prelude::*;

use crate::laws::sql::{
    agrees, cell_in, cell_of, given_columns, ids_sql, insert_sql, key_columns, lemma_ids_ends,
    lemma_insert, lemma_lookup, lemma_questions, lookup_sql, questions, share, Cell,
};
use crate::media::{Subtitle, Table};
use crate::records::{
    is_episode_subtitle_processed, is_movie_subtitle_processed, mark_episode_subtitle_processed,
    mark_movie_subtitle_processed, Lookup, Mark, MarkStep, RecordedIds,
};
use crate::statement::{placeholder_list, Statement, Value, ValueView};
use crate::store::{has_key, Record, Store, TableState};

verus! {

/// A bound value is the one that its view tells of.
proof fn lemma_cell(value: Value, view: ValueView)
    requires
        value@ == view,
    ensures
        cell_of(value) == match view {
            ValueView::Null => Cell::Null,
            ValueView::Integer(n) => Cell::Integer(n),
            ValueView::Text(text) => Cell::Text(text),
        },
{
}

proof fn lemma_bound(statement: Statement, i: int)
    requires
        0 <= i < statement.bound().len(),
    ensures
        statement.params@.len() == statement.bound().len(),
        statement.params@[i]@ == statement.bound()[i],
{
}

/// The query of a lookup yields a row for exactly the records of its medium, language code and
/// action, whatever else they hold.
pub proof fn law_lookup_selects(lookup: Lookup, statement: Statement)
    requires
        call_ensures(Lookup::statement, (&lookup,), statement),
    ensures
        statement.sql@ == lookup_sql(lookup.table),
        forall|record: Record| #[trigger]
            agrees(record, key_columns(), statement.params@) <==> {
                &&& record.media_id == lookup.media_id
                &&& record.language_code == lookup.language_code@
                &&& record.action == lookup.action@
            },
{
    lemma_lookup();
    let params = statement.params@;
    lemma_bound(statement, 0);
    lemma_bound(statement, 1);
    lemma_bound(statement, 2);
    lemma_cell(params[0], ValueView::Integer(lookup.media_id as int));
    lemma_cell(params[1], ValueView::Text(lookup.language_code@));
    lemma_cell(params[2], ValueView::Text(lookup.action@));
    assert forall|record: Record| #[trigger]
        agrees(record, key_columns(), params) implies record.media_id == lookup.media_id
        && record.language_code == lookup.language_code@ && record.action == lookup.action@ by {
        let columns = key_columns();
        assert(cell_in(record, columns[0]) == cell_of(params[0]));
        assert(cell_in(record, columns[1]) == cell_of(params[1]));
        assert(cell_in(record, columns[2]) == cell_of(params[2]));
    }
}

/// The query for recorded ids ends with the condition on the action, and binds the ids in
/// their order and the action. So it yields exactly those of the ids that have a record for
/// the action, whatever else the record holds.
pub proof fn law_recorded_ids_selects(request: RecordedIds, statement: Statement)
    requires
        call_ensures(RecordedIds::statement, (&request,), statement),
    ensures
        statement.sql@ == ids_sql(request.table, request.media_ids@.len()),
        statement.params@.len() == request.media_ids@.len() + 1,
        forall|i: int|
            0 <= i < request.media_ids@.len() ==> cell_of(#[trigger] statement.params@[i])
                == Cell::Integer(request.media_ids@[i] as int),
        cell_of(statement.params@.last()) == Cell::Text(request.action@),
{
    let n = request.media_ids@.len();
    lemma_ids_ends();
    lemma_questions(n);
    assert(statement.sql@ =~= ids_sql(request.table, n));
    lemma_bound(statement, n as int);
    lemma_cell(statement.params@.last(), ValueView::Text(request.action@));
    assert forall|i: int| 0 <= i < n implies cell_of(#[trigger] statement.params@[i])
        == Cell::Integer(request.media_ids@[i] as int) by {
        lemma_bound(statement, i);
        lemma_cell(statement.params@[i], ValueView::Integer(request.media_ids@[i] as int));
    }
}

/// The question marks of a list of values.
pub proof fn law_placeholder_list(n: usize, text: String)
    requires
        call_ensures(placeholder_list, (n,), text),
    ensures
        text@ == questions(n as nat),
{
    lemma_questions(n as nat);
}

/// The insertion of a mark determines every column of the record but its row id.
pub proof fn law_insertion_fills(mark: Mark, now: u64, statement: Statement)
    requires
        call_ensures(Mark::statement, (&mark, now), statement),
    ensures
        statement.sql@ == insert_sql(mark.table),
        forall|record: Record| #[trigger]
            agrees(record, given_columns(), statement.params@) <==> {
                &&& record.media_id == mark.media_id
                &&& record.title == mark.title@
                &&& record.language_code == mark.language_code@
                &&& record.language_name == mark.language_name@
                &&& match mark.path {
                    Some(path) => record.path == Some(path@),
                    None => record.path is None,
                }
                &&& record.action == mark.action@
                &&& record.processed_at == (now as i64) as int
            },
{
    lemma_insert();
    let params = statement.params@;
    let columns = given_columns();
    lemma_bound(statement, 0);
    lemma_bound(statement, 1);
    lemma_bound(statement, 2);
    lemma_bound(statement, 3);
    lemma_bound(statement, 4);
    lemma_bound(statement, 5);
    lemma_bound(statement, 6);
    assert(cell_of(params[0]) == Cell::Integer(mark.media_id as int));
    assert(cell_of(params[1]) == Cell::Text(mark.title@));
    assert(cell_of(params[2]) == Cell::Text(mark.language_code@));
    assert(cell_of(params[3]) == Cell::Text(mark.language_name@));
    assert(cell_of(params[4]) == match mark.path {
        Some(path) => Cell::Text(path@),
        None => Cell::Null,
    });
    assert(cell_of(params[5]) == Cell::Text(mark.action@));
    assert(cell_of(params[6]) == Cell::Integer((now as i64) as int));
    assert forall|record: Record| #[trigger] agrees(record, columns, params) implies {
        &&& record.media_id == mark.media_id
        &&& record.title == mark.title@
        &&& record.language_code == mark.language_code@
        &&& record.language_name == mark.language_name@
        &&& match mark.path {
            Some(path) => record.path == Some(path@),
            None => record.path is None,
        }
        &&& record.action == mark.action@
        &&& record.processed_at == (now as i64) as int
    } by {
        assert(cell_in(record, columns[0]) == cell_of(params[0]));
        assert(cell_in(record, columns[1]) == cell_of(params[1]));
        assert(cell_in(record, columns[2]) == cell_of(params[2]));
        assert(cell_in(record, columns[3]) == cell_of(params[3]));
        assert(cell_in(record, columns[4]) == cell_of(params[4]));
        assert(cell_in(record, columns[5]) == cell_of(params[5]));
        assert(cell_in(record, columns[6]) == cell_of(params[6]));
    }
}

/// The question whether a subtitle of a movie is processed is put to the movie table, and is
/// answered yes by exactly the records of that id, code and action.
pub proof fn law_movie_lookup_selects(
    radarr_id: u32,
    language_code: String,
    action: String,
    lookup: Lookup,
    statement: Statement,
)
    requires
        call_ensures(is_movie_subtitle_processed, (radarr_id, language_code, action), lookup),
        call_ensures(Lookup::statement, (&lookup,), statement),
    ensures
        statement.sql@ == lookup_sql(Table::Movies),
        forall|record: Record| #[trigger]
            agrees(record, key_columns(), statement.params@) <==> record.media_id == radarr_id
                && record.language_code == language_code@ && record.action == action@,
{
    law_lookup_selects(lookup, statement);
}

/// The question whether a subtitle of an episode is processed is put to the episode table, and
/// is answered yes by exactly the records of that id, code and action.
pub proof fn law_episode_lookup_selects(
    sonarr_episode_id: u32,
    language_code: String,
    action: String,
    lookup: Lookup,
    statement: Statement,
)
    requires
        call_ensures(
            is_episode_subtitle_processed,
            (sonarr_episode_id, language_code, action),
            lookup,
        ),
        call_ensures(Lookup::statement, (&lookup,), statement),
    ensures
        statement.sql@ == lookup_sql(Table::Episodes),
        forall|record: Record| #[trigger]
            agrees(record, key_columns(), statement.params@) <==> record.media_id
                == sonarr_episode_id && record.language_code == language_code@ && record.action
                == action@,
{
    law_lookup_selects(lookup, statement);
}

/// A record is what marking a subtitle at `now` stores, apart from the row id.
pub open spec fn tells_of(
    record: Record,
    media_id: u32,
    title: String,
    subtitle: Subtitle,
    action: String,
    now: u64,
) -> bool {
    &&& record.media_id == media_id
    &&& record.title == title@
    &&& subtitle.audio_language_item.code2 matches Some(code) && record.language_code == code@
    &&& record.language_name == subtitle.audio_language_item.name@
    &&& match subtitle.path {
        Some(path) => record.path == Some(path@),
        None => record.path is None,
    }
    &&& record.action == action@
    &&& record.processed_at == (now as i64) as int
}

/// Marking a subtitle of a movie that has a language code: the record that is stored in the
/// movie table has the title, the language, the path and the rest in the columns of those
/// names.
pub proof fn law_movie_mark_fills(
    radarr_id: u32,
    title: String,
    subtitle: Subtitle,
    action: String,
    step: MarkStep,
    now: u64,
    statement: Statement,
)
    requires
        subtitle.audio_language_item.code2 is Some,
        call_ensures(mark_movie_subtitle_processed, (radarr_id, title, subtitle, action), step),
        step matches MarkStep::Insert(mark) ==> call_ensures(
            Mark::statement,
            (&mark, now),
            statement,
        ),
    ensures
        step is Insert,
        statement.sql@ == insert_sql(Table::Movies),
        forall|record: Record| #[trigger]
            agrees(record, given_columns(), statement.params@) <==> tells_of(
                record,
                radarr_id,
                title,
                subtitle,
                action,
                now,
            ),
{
    law_insertion_fills(step->Insert_0, now, statement);
}

/// Marking a subtitle of an episode that has a language code: the record that is stored in the
/// episode table has the title, the language, the path and the rest in the columns of those
/// names.
pub proof fn law_episode_mark_fills(
    sonarr_episode_id: u32,
    title: String,
    subtitle: Subtitle,
    action: String,
    step: MarkStep,
    now: u64,
    statement: Statement,
)
    requires
        subtitle.audio_language_item.code2 is Some,
        call_ensures(
            mark_episode_subtitle_processed,
            (sonarr_episode_id, title, subtitle, action),
            step,
        ),
        step matches MarkStep::Insert(mark) ==> call_ensures(
            Mark::statement,
            (&mark, now),
            statement,
        ),
    ensures
        step is Insert,
        statement.sql@ == insert_sql(Table::Episodes),
        forall|record: Record| #[trigger]
            agrees(record, given_columns(), statement.params@) <==> tells_of(
                record,
                sonarr_episode_id,
                title,
                subtitle,
                action,
                now,
            ),
{
    law_insertion_fills(step->Insert_0, now, statement);
}

/// A subtitle without a language code is not stored, and marking it answers false.
pub proof fn law_mark_without_code(
    media_id: u32,
    title: String,
    subtitle: Subtitle,
    action: String,
    movie_step: MarkStep,
    episode_step: MarkStep,
)
    requires
        subtitle.audio_language_item.code2 is None,
        call_ensures(
            mark_movie_subtitle_processed,
            (media_id, title, subtitle, action),
            movie_step,
        ),
        call_ensures(
            mark_episode_subtitle_processed,
            (media_id, title, subtitle, action),
            episode_step,
        ),
    ensures
        movie_step == MarkStep::Finished(false),
        episode_step == MarkStep::Finished(false),
{
}

/// Some row has this medium, language code and action.
pub open spec fn is_recorded(
    rows: Seq<Record>,
    media_id: u32,
    code: Seq<char>,
    action: Seq<char>,
) -> bool {
    exists|k: int|
        0 <= k < rows.len() && (#[trigger] rows[k]).media_id == media_id && rows[k].language_code
            == code && rows[k].action == action
}

/// Marking a subtitle that has a language code and no record yet adds one row, with all that
/// was given; the other rows, and the other table, stay as they are. If there is a record
/// already, nothing changes.
pub open spec fn stores(
    store: Store,
    table: Table,
    rows: Seq<Record>,
    after: Store,
    media_id: u32,
    title: String,
    subtitle: Subtitle,
    action: String,
    id: int,
    now: u64,
) -> bool {
    if is_recorded(rows, media_id, subtitle.audio_language_item.code2->0@, action@) {
        after == store
    } else {
        exists|record: Record| #[trigger]
            tells_of(record, media_id, title, subtitle, action, now) && record.id == id
                && match table {
                Table::Movies => after == (Store {
                    movies: TableState::Current(rows.push(record)),
                    ..store
                }),
                Table::Episodes => after == (Store {
                    episodes: TableState::Current(rows.push(record)),
                    ..store
                }),
            }
    }
}

proof fn lemma_recorded(rows: Seq<Record>, mark: Mark)
    ensures
        has_key(rows, mark.key()) <==> is_recorded(
            rows,
            mark.media_id,
            mark.language_code@,
            mark.action@,
        ),
{
    if is_recorded(rows, mark.media_id, mark.language_code@, mark.action@) {
        let k = choose|k: int|
            0 <= k < rows.len() && (#[trigger] rows[k]).media_id == mark.media_id
                && rows[k].language_code == mark.language_code@ && rows[k].action == mark.action@;
        assert(rows[k].key() == mark.key());
    }
}

/// [`stores`], for movies.
pub proof fn law_movie_mark_stores(
    store: Store,
    rows: Seq<Record>,
    radarr_id: u32,
    title: String,
    subtitle: Subtitle,
    action: String,
    step: MarkStep,
    id: int,
    now: u64,
)
    requires
        store.is_roomy(),
        store.movies == TableState::Current(rows),
        subtitle.audio_language_item.code2 is Some,
        call_ensures(mark_movie_subtitle_processed, (radarr_id, title, subtitle, action), step),
    ensures
        store.after_mark(step, id, now) matches Some(after) && stores(
            store,
            Table::Movies,
            rows,
            after,
            radarr_id,
            title,
            subtitle,
            action,
            id,
            now,
        ),
{
    let mark = step->Insert_0;
    lemma_recorded(rows, mark);
    assert(tells_of(mark.record(id, now), radarr_id, title, subtitle, action, now));
}

/// [`stores`], for episodes.
pub proof fn law_episode_mark_stores(
    store: Store,
    rows: Seq<Record>,
    sonarr_episode_id: u32,
    title: String,
    subtitle: Subtitle,
    action: String,
    step: MarkStep,
    id: int,
    now: u64,
)
    requires
        store.is_roomy(),
        store.episodes == TableState::Current(rows),
        subtitle.audio_language_item.code2 is Some,
        call_ensures(
            mark_episode_subtitle_processed,
            (sonarr_episode_id, title, subtitle, action),
            step,
        ),
    ensures
        store.after_mark(step, id, now) matches Some(after) && stores(
            store,
            Table::Episodes,
            rows,
            after,
            sonarr_episode_id,
            title,
            subtitle,
            action,
            id,
            now,
        ),
{
    let mark = step->Insert_0;
    lemma_recorded(rows, mark);
    assert(tells_of(mark.record(id, now), sonarr_episode_id, title, subtitle, action, now));
}

/// Marking answers true exactly if a row was added, that is if there was no record of the
/// medium, the language code and the action; an error is handed on.
pub proof fn law_mark_answers<E>(
    store: Store,
    rows: Seq<Record>,
    mark: Mark,
    changed: usize,
    error: E,
    marked: Result<bool, E>,
    failed: Result<bool, E>,
)
    requires
        store.is_roomy(),
        match mark.table {
            Table::Movies => store.movies == TableState::Current(rows),
            Table::Episodes => store.episodes == TableState::Current(rows),
        },
        store.rows_changed(mark) == Some(changed as nat),
        call_ensures(Mark::reply::<E>, (Ok::<usize, E>(changed),), marked),
        call_ensures(Mark::reply::<E>, (Err::<usize, E>(error),), failed),
    ensures
        marked == Ok::<bool, E>(
            !is_recorded(rows, mark.media_id, mark.language_code@, mark.action@),
        ),
        failed == Err::<bool, E>(error),
{
    lemma_recorded(rows, mark);
}

/// Marking answers true exactly if some row was changed, and hands an error on.
pub proof fn law_mark_replies<E>(changed: Result<usize, E>, marked: Result<bool, E>)
    requires
        call_ensures(Mark::reply::<E>, (changed,), marked),
    ensures
        changed matches Ok(rows) ==> marked == Ok::<bool, E>(rows != 0),
        changed matches Err(error) ==> marked == Err::<bool, E>(error),
{
}

/// The rows of a table.
pub open spec fn has_rows(store: Store, table: Table, rows: Seq<Record>) -> bool {
    match table {
        Table::Movies => store.movies == TableState::Current(rows),
        Table::Episodes => store.episodes == TableState::Current(rows),
    }
}

/// The database with other rows in a table.
pub open spec fn with_rows(store: Store, table: Table, rows: Seq<Record>) -> Store {
    match table {
        Table::Movies => Store { movies: TableState::Current(rows), ..store },
        Table::Episodes => Store { episodes: TableState::Current(rows), ..store },
    }
}

/// Running a statement, where that is an insertion, leads to `after` and changes so many rows.
/// The new record holds the bound values and the next row id; it is not stored if one
/// is that has the columns of the key in common with it.
pub open spec fn inserts(
    store: Store,
    statement: Statement,
    id: int,
    after: Store,
    changed: usize,
) -> bool {
    forall|table: Table, rows: Seq<Record>, record: Record|
        statement.sql@ == #[trigger] insert_sql(table) && #[trigger] has_rows(store, table, rows)
            && #[trigger] agrees(record, given_columns(), statement.params@) && record.id == id
            ==> if exists|k: int|
            0 <= k < rows.len() && share(#[trigger] rows[k], record, key_columns()) {
            after == store && changed == 0
        } else {
            after == with_rows(store, table, rows.push(record)) && changed == 1
        }
}

/// Marking a subtitle leads to the database `after` and to `answer`.
pub open spec fn mark_leads<E>(
    store: Store,
    step: MarkStep,
    now: u64,
    id: int,
    statement: Statement,
    changed: usize,
    after: Store,
    answer: Result<bool, E>,
) -> bool {
    match step {
        MarkStep::Finished(known) => after == store && answer == Ok::<bool, E>(known),
        MarkStep::Insert(mark) => {
            &&& call_ensures(Mark::statement, (&mark, now), statement)
            &&& inserts(store, statement, id, after, changed)
            &&& call_ensures(Mark::reply::<E>, (Ok::<usize, E>(changed),), answer)
        },
    }
}

/// What marking a subtitle does to the rows of a table and what it answers. One without a
/// language code, or with a record already, changes nothing and is answered false. Any other
/// adds a row with all that was given, and is answered true.
pub open spec fn is_marked<E>(
    store: Store,
    table: Table,
    rows: Seq<Record>,
    media_id: u32,
    title: String,
    subtitle: Subtitle,
    action: String,
    now: u64,
    id: int,
    after: Store,
    answer: Result<bool, E>,
) -> bool {
    match subtitle.audio_language_item.code2 {
        None => after == store && answer == Ok::<bool, E>(false),
        Some(code) => if is_recorded(rows, media_id, code@, action@) {
            after == store && answer == Ok::<bool, E>(false)
        } else {
            &&& answer == Ok::<bool, E>(true)
            &&& exists|record: Record| #[trigger]
                tells_of(record, media_id, title, subtitle, action, now) && record.id == id
                    && after == with_rows(store, table, rows.push(record))
        },
    }
}

proof fn lemma_is_marked<E>(
    store: Store,
    table: Table,
    rows: Seq<Record>,
    media_id: u32,
    title: String,
    subtitle: Subtitle,
    action: String,
    statement: Statement,
    now: u64,
    id: int,
    changed: usize,
    after: Store,
    answer: Result<bool, E>,
)
    requires
        subtitle.audio_language_item.code2 is Some,
        has_rows(store, table, rows),
        statement.sql@ == insert_sql(table),
        forall|record: Record| #[trigger]
            agrees(record, given_columns(), statement.params@) <==> tells_of(
                record,
                media_id,
                title,
                subtitle,
                action,
                now,
            ),
        inserts(store, statement, id, after, changed),
        call_ensures(Mark::reply::<E>, (Ok::<usize, E>(changed),), answer),
    ensures
        is_marked(
            store,
            table,
            rows,
            media_id,
            title,
            subtitle,
            action,
            now,
            id,
            after,
            answer,
        ),
{
    let code = subtitle.audio_language_item.code2->0;
    let record = Record {
        id,
        media_id: media_id as int,
        title: title@,
        language_code: code@,
        language_name: subtitle.audio_language_item.name@,
        path: match subtitle.path {
            Some(path) => Some(path@),
            None => None,
        },
        action: action@,
        processed_at: (now as i64) as int,
    };
    assert(tells_of(record, media_id, title, subtitle, action, now));
    assert(agrees(record, given_columns(), statement.params@));
    assert forall|k: int| 0 <= k < rows.len() implies (share(
        #[trigger] rows[k],
        record,
        key_columns(),
    ) <==> (rows[k].media_id == media_id && rows[k].language_code == code@ && rows[k].action
        == action@)) by {
        let columns = key_columns();
        if share(rows[k], record, key_columns()) {
            assert(cell_in(rows[k], columns[0]) == cell_in(record, columns[0]));
            assert(cell_in(rows[k], columns[1]) == cell_in(record, columns[1]));
            assert(cell_in(rows[k], columns[2]) == cell_in(record, columns[2]));
        }
    }
    if is_recorded(rows, media_id, code@, action@) {
        let k = choose|k: int|
            0 <= k < rows.len() && (#[trigger] rows[k]).media_id == media_id
                && rows[k].language_code == code@ && rows[k].action == action@;
        assert(share(rows[k], record, key_columns()));
    }
}

/// Carried out on a database, marking a subtitle of a movie is [`is_marked`] of the movie table.
pub proof fn law_movie_marked<E>(
    store: Store,
    rows: Seq<Record>,
    radarr_id: u32,
    title: String,
    subtitle: Subtitle,
    action: String,
    step: MarkStep,
    now: u64,
    id: int,
    statement: Statement,
    changed: usize,
    after: Store,
    answer: Result<bool, E>,
)
    requires
        store.movies == TableState::Current(rows),
        call_ensures(mark_movie_subtitle_processed, (radarr_id, title, subtitle, action), step),
        mark_leads(store, step, now, id, statement, changed, after, answer),
    ensures
        is_marked(
            store,
            Table::Movies,
            rows,
            radarr_id,
            title,
            subtitle,
            action,
            now,
            id,
            after,
            answer,
        ),
{
    if subtitle.audio_language_item.code2 is Some {
        law_movie_mark_fills(radarr_id, title, subtitle, action, step, now, statement);
        lemma_is_marked(
            store,
            Table::Movies,
            rows,
            radarr_id,
            title,
            subtitle,
            action,
            statement,
            now,
            id,
            changed,
            after,
            answer,
        );
    }
}

/// Carried out on a database, marking a subtitle of an episode is [`is_marked`] of the episode
/// table.
pub proof fn law_episode_marked<E>(
    store: Store,
    rows: Seq<Record>,
    sonarr_episode_id: u32,
    title: String,
    subtitle: Subtitle,
    action: String,
    step: MarkStep,
    now: u64,
    id: int,
    statement: Statement,
    changed: usize,
    after: Store,
    answer: Result<bool, E>,
)
    requires
        store.episodes == TableState::Current(rows),
        call_ensures(
            mark_episode_subtitle_processed,
            (sonarr_episode_id, title, subtitle, action),
            step,
        ),
        mark_leads(store, step, now, id, statement, changed, after, answer),
    ensures
        is_marked(
            store,
            Table::Episodes,
            rows,
            sonarr_episode_id,
            title,
            subtitle,
            action,
            now,
            id,
            after,
            answer,
        ),
{
    if subtitle.audio_language_item.code2 is Some {
        law_episode_mark_fills(sonarr_episode_id, title, subtitle, action, step, now, statement);
        lemma_is_marked(
            store,
            Table::Episodes,
            rows,
            sonarr_episode_id,
            title,
            subtitle,
            action,
            statement,
            now,
            id,
            changed,
            after,
            answer,
        );
    }
}

/// A record that marking a subtitle stores is one that the question about the same subtitle
/// and action finds, and one about another finds it not.
pub proof fn law_marked_is_found(
    mark: Mark,
    now: u64,
    insertion: Statement,
    lookup: Lookup,
    question: Statement,
    record: Record,
)
    requires
        call_ensures(Mark::statement, (&mark, now), insertion),
        call_ensures(Lookup::statement, (&lookup,), question),
        agrees(record, given_columns(), insertion.params@),
    ensures
        agrees(record, key_columns(), question.params@) <==> {
            &&& lookup.media_id == mark.media_id
            &&& lookup.language_code@ == mark.language_code@
            &&& lookup.action@ == mark.action@
        },
{
    law_insertion_fills(mark, now, insertion);
    law_lookup_selects(lookup, question);
}

/// Up to the largest number that a column holds, the time is stored as it is.
pub proof fn law_time_is_stored(mark: Mark, now: u64, statement: Statement, record: Record)
    requires
        now <= i64::MAX,
        call_ensures(Mark::statement, (&mark, now), statement),
        agrees(record, given_columns(), statement.params@),
    ensures
        record.processed_at == now,
{
    law_insertion_fills(mark, now, statement);
}

} // verus!
