//! Filtering as it is carried out: the questions are put to a database as the statements say,
//! and the answers go into the replies.

use vstd::prelude::*;

use crate::filter::{
    filter_start, filter_unprocessed, filter_unprocessed_episodes, filter_unprocessed_movies,
    EpisodesNotice, FilterPoint, FilterStep, Position, RecordedAsked, SubtitleAsked,
};
use crate::laws::filtering::{
    answer_of, chosen, count_coded, count_questions, lemma_advance_action, lemma_advance_count,
    lemma_advance_outcome, lemma_after_outcome, lemma_chosen_wanted, outcome,
};
use crate::laws::requests::{
    has_rows, is_recorded, law_lookup_selects, law_recorded_ids_selects,
};
use crate::laws::sql::{agrees, cell_of, ids_sql, key_columns, lookup_sql, Cell};
use crate::media::{Episode, Media, Movie, Subtitle, Table, Tagged};
use crate::records::{Lookup, RecordedIds};
use crate::statement::Statement;
use crate::store::{has_any, has_key, Key, Record, Store, TableState};

verus! {

/// A query for recorded ids yields this id.
pub open spec fn yields_id(rows: Seq<Record>, statement: Statement, n: nat, id: u32) -> bool {
    exists|k: int, i: int|
        0 <= k < rows.len() && 0 <= i < n && #[trigger] rows[k].media_id == id && cell_of(
            #[trigger] statement.params@[i],
        ) == Cell::Integer(rows[k].media_id) && cell_of(statement.params@[n as int]) == Cell::Text(
            rows[k].action,
        )
}

/// These are the ids that the database answers to a statement with, where that is a query for
/// recorded ids.
pub open spec fn answers_ids(store: Store, statement: Statement, ids: Seq<u32>) -> bool {
    forall|table: Table, n: nat, rows: Seq<Record>|
        statement.sql@ == #[trigger] ids_sql(table, n) && statement.params@.len() == n + 1
            && #[trigger] has_rows(store, table, rows) ==> forall|id: u32| #[trigger]
            ids.contains(id) <==> yields_id(rows, statement, n, id)
}

/// This is whether the database answers a statement with a row, where that is a lookup.
pub open spec fn answers_lookup(store: Store, statement: Statement, found: bool) -> bool {
    forall|table: Table, rows: Seq<Record>|
        statement.sql@ == #[trigger] lookup_sql(table) && #[trigger] has_rows(
            store,
            table,
            rows,
        ) ==> (found <==> exists|k: int|
            0 <= k < rows.len() && agrees(#[trigger] rows[k], key_columns(), statement.params@))
}

/// Asking for the recorded ids leads on to `next`.
pub open spec fn ids_lead<M: Media, E>(
    store: Store,
    asked: RecordedAsked<M>,
    request: RecordedIds,
    statement: Statement,
    ids: Vec<u32>,
    next: FilterStep<M>,
) -> bool {
    &&& call_ensures(RecordedAsked::<M>::request, (&asked,), request)
    &&& call_ensures(RecordedIds::statement, (&request,), statement)
    &&& answers_ids(store, statement, ids@)
    &&& call_ensures(
        RecordedAsked::<M>::reply::<E>,
        (asked, Ok::<Vec<u32>, E>(ids)),
        Ok::<FilterStep<M>, E>(next),
    )
}

/// Asking about a subtitle leads on to `next`.
pub open spec fn lookup_leads<M: Media, E>(
    store: Store,
    asked: SubtitleAsked<M>,
    request: Lookup,
    statement: Statement,
    found: bool,
    next: FilterStep<M>,
) -> bool {
    &&& call_ensures(SubtitleAsked::<M>::request, (&asked,), request)
    &&& call_ensures(Lookup::statement, (&request,), statement)
    &&& answers_lookup(store, statement, found)
    &&& call_ensures(
        SubtitleAsked::<M>::reply::<E>,
        (asked, Ok::<bool, E>(found)),
        Ok::<FilterStep<M>, E>(next),
    )
}

/// A step leads on to `next`.
pub open spec fn leads<M: Media, E>(
    store: Store,
    step: FilterStep<M>,
    next: FilterStep<M>,
) -> bool {
    match step {
        FilterStep::AskRecorded(asked) => exists|
            request: RecordedIds,
            statement: Statement,
            ids: Vec<u32>,
        | #[trigger] ids_lead::<M, E>(store, asked, request, statement, ids, next),
        FilterStep::AskSubtitle(asked) => exists|
            request: Lookup,
            statement: Statement,
            found: bool,
        | #[trigger] lookup_leads::<M, E>(store, asked, request, statement, found, next),
        FilterStep::Finished(_) => false,
    }
}

/// From `step` on, filtering ends with `kept` after at most `n` questions.
pub open spec fn ends_with<M: Media, E>(
    store: Store,
    step: FilterStep<M>,
    kept: Seq<M>,
    n: nat,
) -> bool
    decreases n,
{
    match step {
        FilterStep::Finished(items) => items@ == kept,
        _ => n > 0 && exists|next: FilterStep<M>| #[trigger]
            leads::<M, E>(store, step, next) && ends_with::<M, E>(
                store,
                next,
                kept,
                (n - 1) as nat,
            ),
    }
}

/// A subtitle has a language code, and no record with it of the medium and the action.
pub open spec fn is_left(
    rows: Seq<Record>,
    media_id: u32,
    subtitles: Seq<Subtitle>,
    sub: int,
    action: Seq<char>,
) -> bool {
    &&& 0 <= sub < subtitles.len()
    &&& subtitles[sub].audio_language_item.code2 matches Some(code) && !is_recorded(
        rows,
        media_id,
        code@,
        action,
    )
}

/// There is something left to do on a medium: there is no record of it for the action, or one
/// of its subtitles with a language code has none.
pub open spec fn is_wanted(
    rows: Seq<Record>,
    media_id: u32,
    subtitles: Seq<Subtitle>,
    action: Seq<char>,
) -> bool {
    ||| !(exists|k: int|
        0 <= k < rows.len() && (#[trigger] rows[k]).media_id == media_id && rows[k].action
            == action)
    ||| exists|sub: int| #[trigger] is_left(rows, media_id, subtitles, sub, action)
}

proof fn lemma_is_recorded(rows: Seq<Record>, media_id: u32, code: Seq<char>, action: Seq<char>)
    ensures
        is_recorded(rows, media_id, code, action) <==> has_key(
            rows,
            Key { media_id: media_id as int, language_code: code, action },
        ),
{
    let key = Key { media_id: media_id as int, language_code: code, action };
    if is_recorded(rows, media_id, code, action) {
        let k = choose|k: int|
            0 <= k < rows.len() && (#[trigger] rows[k]).media_id == media_id
                && rows[k].language_code == code && rows[k].action == action;
        assert(rows[k].key() == key);
    }
}

proof fn lemma_wanted<M: Media>(store: Store, rows: Seq<Record>, item: M, action: Seq<char>)
    requires
        has_rows(store, M::spec_table(), rows),
    ensures
        store.wanted(item, action) <==> is_wanted(
            rows,
            item.spec_id(),
            item.spec_subtitles(),
            action,
        ),
{
    let subtitles = item.spec_subtitles();
    assert forall|sub: int|
        #![trigger is_left(rows, item.spec_id(), subtitles, sub, action)]
        #![trigger store.unprocessed(item, sub, action)]
        is_left(rows, item.spec_id(), subtitles, sub, action) <==> store.unprocessed(
            item,
            sub,
            action,
        ) by {
        if let Some(code) = subtitles[sub].audio_language_item.code2 {
            lemma_is_recorded(rows, item.spec_id(), code@, action);
        }
    }
    if exists|sub: int| #[trigger] store.unprocessed(item, sub, action) {
        let sub = choose|sub: int| #[trigger] store.unprocessed(item, sub, action);
        assert(is_left(rows, item.spec_id(), subtitles, sub, action));
    }
    if exists|sub: int| #[trigger] is_left(rows, item.spec_id(), subtitles, sub, action) {
        let sub = choose|sub: int| #[trigger]
            is_left(rows, item.spec_id(), subtitles, sub, action);
        assert(store.unprocessed(item, sub, action));
    }
}

proof fn lemma_ids_lead<M: Media, E>(
    store: Store,
    rows: Seq<Record>,
    asked: RecordedAsked<M>,
    request: RecordedIds,
    statement: Statement,
    ids: Vec<u32>,
    next: FilterStep<M>,
)
    requires
        has_rows(store, M::spec_table(), rows),
        ids_lead::<M, E>(store, asked, request, statement, ids, next),
    ensures
        next@ == (Position {
            kept: Seq::empty(),
            todo: asked.items(),
            recorded: ids@.to_set(),
            sub: 0,
            action: asked.action(),
        }).advance(),
        forall|j: int|
            0 <= j < asked.items().len() ==> ids@.to_set().contains(
                (#[trigger] asked.items()[j]).spec_id(),
            ) == has_any(rows, asked.items()[j].spec_id() as int, asked.action()),
{
    let items = asked.items();
    let n = request.media_ids@.len();
    law_recorded_ids_selects(request, statement);
    assert(statement.sql@ == ids_sql(M::spec_table(), n));
    assert forall|j: int| 0 <= j < items.len() implies ids@.to_set().contains(
        (#[trigger] items[j]).spec_id(),
    ) == has_any(rows, items[j].spec_id() as int, asked.action()) by {
        let id = items[j].spec_id();
        assert(request.media_ids@[j] == id);
        assert(ids@.contains(id) <==> yields_id(rows, statement, n, id));
        if has_any(rows, id as int, asked.action()) {
            let k = choose|k: int|
                0 <= k < rows.len() && (#[trigger] rows[k]).media_id == id as int
                    && rows[k].action == asked.action();
            assert(rows[k].media_id == id);
            assert(cell_of(statement.params@[j]) == Cell::Integer(rows[k].media_id));
            assert(yields_id(rows, statement, n, id));
        }
        if yields_id(rows, statement, n, id) {
            let (k, i) = choose|k: int, i: int|
                0 <= k < rows.len() && 0 <= i < n && #[trigger] rows[k].media_id == id && cell_of(
                    #[trigger] statement.params@[i],
                ) == Cell::Integer(rows[k].media_id) && cell_of(statement.params@[n as int])
                    == Cell::Text(rows[k].action);
            assert(rows[k].media_id == id as int);
        }
    }
}

proof fn lemma_lookup_leads<M: Media, E>(
    store: Store,
    rows: Seq<Record>,
    asked: SubtitleAsked<M>,
    request: Lookup,
    statement: Statement,
    found: bool,
    next: FilterStep<M>,
)
    requires
        has_rows(store, M::spec_table(), rows),
        lookup_leads::<M, E>(store, asked, request, statement, found, next),
    ensures
        asked@.asks(),
        next@ == asked@.after(found),
        found == has_key(rows, asked@.key()),
{
    law_lookup_selects(request, statement);
    assert(statement.sql@ == lookup_sql(M::spec_table()));
    if has_key(rows, asked@.key()) {
        let k = choose|k: int| 0 <= k < rows.len() && #[trigger] rows[k].key() == asked@.key();
        assert(rows[k].key() == request.key());
        assert(agrees(rows[k], key_columns(), statement.params@));
    }
    if found {
        let k = choose|k: int|
            0 <= k < rows.len() && agrees(#[trigger] rows[k], key_columns(), statement.params@);
        assert(rows[k].key() == request.key());
    }
}

proof fn lemma_ends_from_subtitle<M: Media, E>(
    store: Store,
    rows: Seq<Record>,
    step: FilterStep<M>,
    action: Seq<char>,
    kept: Seq<M>,
    n: nat,
)
    requires
        has_rows(store, M::spec_table(), rows),
        ends_with::<M, E>(store, step, kept, n),
        match step@ {
            FilterPoint::AskSubtitle(at) => at.action == action,
            FilterPoint::Finished(_) => true,
            FilterPoint::AskRecorded { .. } => false,
        },
    ensures
        kept == outcome(step@, answer_of(store, action)),
    decreases n,
{
    match step {
        FilterStep::AskSubtitle(asked) => {
            let oracle = answer_of::<M>(store, action);
            let at = asked@;
            let next = choose|next: FilterStep<M>| #[trigger]
                leads::<M, E>(store, step, next) && ends_with::<M, E>(
                    store,
                    next,
                    kept,
                    (n - 1) as nat,
                );
            let (request, statement, found) = choose|
                request: Lookup,
                statement: Statement,
                found: bool,
            | #[trigger] lookup_leads::<M, E>(store, asked, request, statement, found, next);
            lemma_lookup_leads::<M, E>(store, rows, asked, request, statement, found, next);
            assert(found == oracle(at.todo, at.sub));
            lemma_after_outcome(at, oracle);
            lemma_advance_action(Position { sub: at.sub + 1, ..at });
            lemma_advance_action(at.keep());
            lemma_advance_outcome(Position { sub: at.sub + 1, ..at }, oracle);
            lemma_advance_outcome(at.keep(), oracle);
            lemma_ends_from_subtitle::<M, E>(store, rows, next, action, kept, (n - 1) as nat);
        },
        FilterStep::AskRecorded(_) => {},
        FilterStep::Finished(_) => {},
    }
}

proof fn lemma_ends<M: Media, E>(
    store: Store,
    rows: Seq<Record>,
    items: Seq<M>,
    action: Seq<char>,
    step: FilterStep<M>,
    kept: Seq<M>,
    n: nat,
)
    requires
        has_rows(store, M::spec_table(), rows),
        step@ == filter_start(items, action),
        ends_with::<M, E>(store, step, kept, n),
    ensures
        kept == items.filter(
            |item: M| is_wanted(rows, item.spec_id(), item.spec_subtitles(), action),
        ),
{
    let wanted = |item: M| is_wanted(rows, item.spec_id(), item.spec_subtitles(), action);
    match step {
        FilterStep::AskRecorded(asked) => {
            let oracle = answer_of::<M>(store, action);
            let next = choose|next: FilterStep<M>| #[trigger]
                leads::<M, E>(store, step, next) && ends_with::<M, E>(
                    store,
                    next,
                    kept,
                    (n - 1) as nat,
                );
            let (request, statement, ids) = choose|
                request: RecordedIds,
                statement: Statement,
                ids: Vec<u32>,
            | #[trigger] ids_lead::<M, E>(store, asked, request, statement, ids, next);
            lemma_ids_lead::<M, E>(store, rows, asked, request, statement, ids, next);
            let recorded = ids@.to_set();
            let start = Position { kept: Seq::empty(), todo: items, recorded, sub: 0, action };
            lemma_advance_outcome(start, oracle);
            lemma_advance_action(start);
            lemma_ends_from_subtitle::<M, E>(store, rows, next, action, kept, (n - 1) as nat);
            assert(Seq::<M>::empty() + chosen(items, recorded, 0, oracle) =~= chosen(
                items,
                recorded,
                0,
                oracle,
            ));
            lemma_chosen_wanted(store, items, recorded, action);
            assert forall|item: M| #[trigger] wanted(item) == store.wanted(item, action) by {
                lemma_wanted(store, rows, item, action);
            }
            assert(wanted =~= |item: M| store.wanted(item, action));
        },
        FilterStep::AskSubtitle(_) => {},
        FilterStep::Finished(_) => {
            reveal(Seq::filter);
            assert(items.filter(wanted) =~= items);
        },
    }
}

/// Carried out on a database, filtering movies ends with, in their order, exactly those of
/// which there is no record under their `radarr_id` for the action, or of which a subtitle
/// with a language code has none.
pub proof fn law_movies_kept<E>(
    store: Store,
    rows: Seq<Record>,
    movies: Vec<Movie>,
    action: String,
    first: FilterStep<Movie>,
    kept: Seq<Movie>,
    n: nat,
)
    requires
        store.movies == TableState::Current(rows),
        call_ensures(filter_unprocessed_movies, (movies, action), first),
        ends_with::<Movie, E>(store, first, kept, n),
    ensures
        kept == movies@.filter(
            |movie: Movie| is_wanted(rows, movie.radarr_id, movie.subtitles@, action@),
        ),
{
    lemma_ends::<Movie, E>(store, rows, movies@, action@, first, kept, n);
    assert((|movie: Movie| is_wanted(rows, movie.radarr_id, movie.subtitles@, action@))
        =~= |item: Movie| is_wanted(rows, item.spec_id(), item.spec_subtitles(), action@));
}

/// Carried out on a database, filtering episodes ends with, in their order, exactly those of
/// which there is no record under their `sonarr_episode_id` for the action, or of which a
/// subtitle with a language code has none.
pub proof fn law_episodes_kept<E>(
    store: Store,
    rows: Seq<Record>,
    episodes: Vec<Episode>,
    action: String,
    started: (EpisodesNotice, FilterStep<Episode>),
    kept: Seq<Episode>,
    n: nat,
)
    requires
        store.episodes == TableState::Current(rows),
        call_ensures(filter_unprocessed_episodes, (episodes, action), started),
        ends_with::<Episode, E>(store, started.1, kept, n),
    ensures
        kept == episodes@.filter(
            |episode: Episode|
                is_wanted(rows, episode.sonarr_episode_id, episode.subtitles@, action@),
        ),
{
    lemma_ends::<Episode, E>(store, rows, episodes@, action@, started.1, kept, n);
    assert((|episode: Episode|
        is_wanted(rows, episode.sonarr_episode_id, episode.subtitles@, action@))
        =~= |item: Episode| is_wanted(rows, item.spec_id(), item.spec_subtitles(), action@));
}

/// Movies and episodes that something more belongs to are filtered as they are without it, and
/// keep it.
pub proof fn law_tagged_kept<T, E>(
    store: Store,
    movie_rows: Seq<Record>,
    movies: Vec<Tagged<Movie, T>>,
    first_movie: FilterStep<Tagged<Movie, T>>,
    kept_movies: Seq<Tagged<Movie, T>>,
    episode_rows: Seq<Record>,
    episodes: Vec<Tagged<Episode, T>>,
    first_episode: FilterStep<Tagged<Episode, T>>,
    kept_episodes: Seq<Tagged<Episode, T>>,
    action: String,
    n: nat,
)
    requires
        store.movies == TableState::Current(movie_rows),
        store.episodes == TableState::Current(episode_rows),
        call_ensures(filter_unprocessed::<Tagged<Movie, T>>, (movies, action), first_movie),
        ends_with::<Tagged<Movie, T>, E>(store, first_movie, kept_movies, n),
        call_ensures(filter_unprocessed::<Tagged<Episode, T>>, (episodes, action), first_episode),
        ends_with::<Tagged<Episode, T>, E>(store, first_episode, kept_episodes, n),
    ensures
        kept_movies == movies@.filter(
            |tagged: Tagged<Movie, T>|
                is_wanted(
                    movie_rows,
                    tagged.item.radarr_id,
                    tagged.item.subtitles@,
                    action@,
                ),
        ),
        kept_episodes == episodes@.filter(
            |tagged: Tagged<Episode, T>|
                is_wanted(
                    episode_rows,
                    tagged.item.sonarr_episode_id,
                    tagged.item.subtitles@,
                    action@,
                ),
        ),
{
    lemma_ends::<Tagged<Movie, T>, E>(
        store,
        movie_rows,
        movies@,
        action@,
        first_movie,
        kept_movies,
        n,
    );
    assert((|tagged: Tagged<Movie, T>|
        is_wanted(movie_rows, tagged.item.radarr_id, tagged.item.subtitles@, action@)) =~= |
        item: Tagged<Movie, T>,
    | is_wanted(movie_rows, item.spec_id(), item.spec_subtitles(), action@));
    lemma_ends::<Tagged<Episode, T>, E>(
        store,
        episode_rows,
        episodes@,
        action@,
        first_episode,
        kept_episodes,
        n,
    );
    assert((|tagged: Tagged<Episode, T>|
        is_wanted(episode_rows, tagged.item.sonarr_episode_id, tagged.item.subtitles@, action@))
        =~= |item: Tagged<Episode, T>|
        is_wanted(episode_rows, item.spec_id(), item.spec_subtitles(), action@));
}

/// A movie is known in its table by its `radarr_id`, an episode by its `sonarr_episode_id`, and
/// each has the subtitles that it holds. With something more it has the same.
pub proof fn law_media<T>(
    movie: Movie,
    movie_id: u32,
    movie_subtitles: &Vec<Subtitle>,
    movie_table: Table,
    episode: Episode,
    episode_id: u32,
    episode_subtitles: &Vec<Subtitle>,
    episode_table: Table,
    tagged: Tagged<Movie, T>,
    tagged_id: u32,
    tagged_subtitles: &Vec<Subtitle>,
    tagged_table: Table,
)
    requires
        call_ensures(<Movie as Media>::id, (&movie,), movie_id),
        call_ensures(<Movie as Media>::subtitles, (&movie,), movie_subtitles),
        call_ensures(<Movie as Media>::table, (), movie_table),
        call_ensures(<Episode as Media>::id, (&episode,), episode_id),
        call_ensures(<Episode as Media>::subtitles, (&episode,), episode_subtitles),
        call_ensures(<Episode as Media>::table, (), episode_table),
        call_ensures(<Tagged<Movie, T> as Media>::id, (&tagged,), tagged_id),
        call_ensures(<Tagged<Movie, T> as Media>::subtitles, (&tagged,), tagged_subtitles),
        call_ensures(<Tagged<Movie, T> as Media>::table, (), tagged_table),
    ensures
        movie_id == movie.radarr_id,
        movie_subtitles@ == movie.subtitles@,
        movie_table == Table::Movies,
        episode_id == episode.sonarr_episode_id,
        episode_subtitles@ == episode.subtitles@,
        episode_table == Table::Episodes,
        tagged_id == tagged.item.radarr_id,
        tagged_subtitles@ == tagged.item.subtitles@,
        tagged_table == Table::Movies,
{
}

/// With nothing to filter, filtering ends at once. With something, the ids of all of it are
/// asked about first, in their order, for the action, in the table of its kind.
pub proof fn law_filter_asks(
    movies: Vec<Movie>,
    first_movie: FilterStep<Movie>,
    movies_asked: RecordedIds,
    episodes: Vec<Episode>,
    started: (EpisodesNotice, FilterStep<Episode>),
    episodes_asked: RecordedIds,
    action: String,
)
    requires
        call_ensures(filter_unprocessed_movies, (movies, action), first_movie),
        first_movie matches FilterStep::AskRecorded(asked) ==> call_ensures(
            RecordedAsked::<Movie>::request,
            (&asked,),
            movies_asked,
        ),
        call_ensures(filter_unprocessed_episodes, (episodes, action), started),
        started.1 matches FilterStep::AskRecorded(asked) ==> call_ensures(
            RecordedAsked::<Episode>::request,
            (&asked,),
            episodes_asked,
        ),
    ensures
        if movies@.len() == 0 {
            first_movie matches FilterStep::Finished(kept) && kept@.len() == 0
        } else {
            &&& first_movie is AskRecorded
            &&& movies_asked.table == Table::Movies
            &&& movies_asked.media_ids@.len() == movies@.len()
            &&& forall|i: int|
                0 <= i < movies@.len() ==> movies_asked.media_ids@[i] == (
                #[trigger] movies@[i]).radarr_id
            &&& movies_asked.action@ == action@
        },
        if episodes@.len() == 0 {
            started.1 matches FilterStep::Finished(kept) && kept@.len() == 0
        } else {
            &&& started.1 is AskRecorded
            &&& episodes_asked.table == Table::Episodes
            &&& episodes_asked.media_ids@.len() == episodes@.len()
            &&& forall|i: int|
                0 <= i < episodes@.len() ==> episodes_asked.media_ids@[i] == (
                #[trigger] episodes@[i]).sonarr_episode_id
            &&& episodes_asked.action@ == action@
        },
{
}

/// An error in either question ends the filtering and is handed on; without one it goes on.
pub proof fn law_filter_errors<M: Media, E>(
    asked: RecordedAsked<M>,
    ids: Result<Vec<u32>, E>,
    with_ids: Result<FilterStep<M>, E>,
    at: SubtitleAsked<M>,
    processed: Result<bool, E>,
    with_answer: Result<FilterStep<M>, E>,
)
    requires
        call_ensures(RecordedAsked::<M>::reply::<E>, (asked, ids), with_ids),
        call_ensures(SubtitleAsked::<M>::reply::<E>, (at, processed), with_answer),
    ensures
        ids matches Err(error) ==> with_ids == Err::<FilterStep<M>, E>(error),
        ids is Ok ==> with_ids is Ok,
        processed matches Err(error) ==> with_answer == Err::<FilterStep<M>, E>(error),
        processed is Ok ==> with_answer is Ok,
{
}

/// There are `n` questions to be asked one after the other from `step` on.
pub open spec fn goes_on<M: Media, E>(store: Store, step: FilterStep<M>, n: nat) -> bool
    decreases n,
{
    n == 0 || exists|next: FilterStep<M>| #[trigger]
        leads::<M, E>(store, step, next) && goes_on::<M, E>(store, next, (n - 1) as nat)
}

/// How many of the subtitles have a language code.
pub open spec fn coded(subtitles: Seq<Subtitle>) -> nat
    decreases subtitles.len(),
{
    if subtitles.len() == 0 {
        0
    } else if subtitles[0].audio_language_item.code2 is Some {
        1 + coded(subtitles.drop_first())
    } else {
        coded(subtitles.drop_first())
    }
}

/// How many subtitles of all the items have a language code.
pub open spec fn all_coded<M>(items: Seq<M>, subtitles: spec_fn(M) -> Seq<Subtitle>) -> nat
    decreases items.len(),
{
    if items.len() == 0 {
        0
    } else {
        coded(subtitles(items[0])) + all_coded(items.drop_first(), subtitles)
    }
}

proof fn lemma_coded(subtitles: Seq<Subtitle>, from: int)
    requires
        0 <= from <= subtitles.len(),
    ensures
        count_coded(subtitles, from) == coded(subtitles.skip(from)),
    decreases subtitles.len() - from,
{
    if from < subtitles.len() {
        lemma_coded(subtitles, from + 1);
        assert(subtitles.skip(from).drop_first() =~= subtitles.skip(from + 1));
        assert(subtitles.skip(from)[0] == subtitles[from]);
    }
}

proof fn lemma_all_coded<M: Media>(items: Seq<M>, subtitles: spec_fn(M) -> Seq<Subtitle>)
    requires
        forall|item: M| #[trigger] subtitles(item) == item.spec_subtitles(),
    ensures
        count_questions(items, 0) == all_coded(items, subtitles),
    decreases items.len(),
{
    if items.len() > 0 {
        let first = subtitles(items[0]);
        lemma_coded(first, 0);
        assert(first.skip(0) =~= first);
        lemma_all_coded(items.drop_first(), subtitles);
    }
}

proof fn lemma_goes_on<M: Media, E>(store: Store, step: FilterStep<M>, n: nat)
    requires
        goes_on::<M, E>(store, step, n),
        !(step is AskRecorded),
        step@ matches FilterPoint::AskSubtitle(at) ==> at.asks(),
    ensures
        n <= match step@ {
            FilterPoint::AskSubtitle(at) => count_questions(at.todo, at.sub),
            _ => 0,
        },
    decreases n,
{
    if n > 0 {
        let next = choose|next: FilterStep<M>| #[trigger]
            leads::<M, E>(store, step, next) && goes_on::<M, E>(store, next, (n - 1) as nat);
        match step {
            FilterStep::AskSubtitle(asked) => {
                let at = asked@;
                let (request, statement, found) = choose|
                    request: Lookup,
                    statement: Statement,
                    found: bool,
                | #[trigger] lookup_leads::<M, E>(store, asked, request, statement, found, next);
                assert(next@ == at.after(found));
                assert(count_coded(at.todo[0].spec_subtitles(), at.sub) == 1 + count_coded(
                    at.todo[0].spec_subtitles(),
                    at.sub + 1,
                ));
                lemma_advance_count(Position { sub: at.sub + 1, ..at });
                lemma_advance_count(at.keep());
                lemma_goes_on::<M, E>(store, next, (n - 1) as nat);
            },
            _ => {},
        }
    }
}

proof fn lemma_goes_on_from_start<M: Media, E>(
    store: Store,
    items: Seq<M>,
    action: Seq<char>,
    step: FilterStep<M>,
    n: nat,
)
    requires
        step@ == filter_start(items, action),
        goes_on::<M, E>(store, step, n),
    ensures
        n <= 1 + count_questions(items, 0),
        items.len() == 0 ==> n == 0,
{
    if n > 0 {
        let next = choose|next: FilterStep<M>| #[trigger]
            leads::<M, E>(store, step, next) && goes_on::<M, E>(store, next, (n - 1) as nat);
        if let FilterStep::AskRecorded(asked) = step {
            let (request, statement, ids) = choose|
                request: RecordedIds,
                statement: Statement,
                ids: Vec<u32>,
            | #[trigger] ids_lead::<M, E>(store, asked, request, statement, ids, next);
            let start = Position {
                kept: Seq::empty(),
                todo: items,
                recorded: ids@.to_set(),
                sub: 0,
                action,
            };
            assert(next@ == start.advance());
            lemma_advance_count(start);
            lemma_goes_on::<M, E>(store, next, (n - 1) as nat);
        }
    }
}

/// Whatever the answers, filtering comes to an end: after the first question it asks at most
/// once about each subtitle that has a language code.
pub proof fn law_filter_stops<E>(
    store: Store,
    movies: Vec<Movie>,
    first_movie: FilterStep<Movie>,
    episodes: Vec<Episode>,
    started: (EpisodesNotice, FilterStep<Episode>),
    action: String,
    n: nat,
)
    requires
        call_ensures(filter_unprocessed_movies, (movies, action), first_movie),
        call_ensures(filter_unprocessed_episodes, (episodes, action), started),
    ensures
        goes_on::<Movie, E>(store, first_movie, n) ==> n <= 1 + all_coded(
            movies@,
            |movie: Movie| movie.subtitles@,
        ),
        goes_on::<Episode, E>(store, started.1, n) ==> n <= 1 + all_coded(
            episodes@,
            |episode: Episode| episode.subtitles@,
        ),
{
    if goes_on::<Movie, E>(store, first_movie, n) {
        lemma_goes_on_from_start::<Movie, E>(store, movies@, action@, first_movie, n);
        lemma_all_coded(movies@, |movie: Movie| movie.subtitles@);
    }
    if goes_on::<Episode, E>(store, started.1, n) {
        lemma_goes_on_from_start::<Episode, E>(store, episodes@, action@, started.1, n);
        lemma_all_coded(episodes@, |episode: Episode| episode.subtitles@);
    }
}

} // verus!
