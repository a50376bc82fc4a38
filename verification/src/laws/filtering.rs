//! What filtering comes to.

use vstd::prelude::*;

use crate::filter::{
    filter_start, lemma_next_coded, next_coded, with_recorded, FilterPoint, Position,
};
use crate::laws::marking::{law_uncoded_stays_wanted, marks_all};
use crate::media::{Media, Subtitle};
use crate::records::MarkStep;
use crate::store::{has_any, has_key, Key, Store};

verus! {

/// Where filtering has come to after some answers.
pub open spec fn run<M: Media>(point: FilterPoint<M>, answers: Seq<bool>) -> FilterPoint<M>
    decreases answers.len(),
{
    match point {
        FilterPoint::AskSubtitle(at) => if answers.len() == 0 {
            point
        } else {
            run(at.after(answers[0]), answers.drop_first())
        },
        _ => point,
    }
}

/// The answers are those that `oracle` gives to the questions, which it tells apart by the
/// media left to settle and the subtitle.
pub open spec fn given_by<M: Media>(
    point: FilterPoint<M>,
    answers: Seq<bool>,
    oracle: spec_fn(Seq<M>, int) -> bool,
) -> bool
    decreases answers.len(),
{
    match point {
        FilterPoint::AskSubtitle(at) => answers.len() > 0 ==> {
            &&& answers[0] == oracle(at.todo, at.sub)
            &&& given_by(at.after(answers[0]), answers.drop_first(), oracle)
        },
        _ => true,
    }
}

/// A subtitle of `todo[0]` from `from` on has a language code, and is not processed
/// according to `oracle`.
pub open spec fn some_left<M: Media>(
    todo: Seq<M>,
    from: int,
    oracle: spec_fn(Seq<M>, int) -> bool,
) -> bool {
    exists|sub: int|
        from <= sub < todo[0].spec_subtitles().len() && (
        #[trigger] todo[0].spec_subtitles()[sub]).code() is Some && !oracle(todo, sub)
}

/// The media that are kept, in their order: those without a record, and those with an
/// unprocessed subtitle. Of the first one, only the subtitles from `from` on count.
pub open spec fn chosen<M: Media>(
    todo: Seq<M>,
    recorded: Set<u32>,
    from: int,
    oracle: spec_fn(Seq<M>, int) -> bool,
) -> Seq<M>
    decreases todo.len(),
{
    if todo.len() == 0 {
        Seq::empty()
    } else {
        let rest = chosen(todo.drop_first(), recorded, 0, oracle);
        if !recorded.contains(todo[0].spec_id()) || some_left(todo, from, oracle) {
            seq![todo[0]] + rest
        } else {
            rest
        }
    }
}

/// What filtering from `point` on comes to under `oracle`.
pub open spec fn outcome<M: Media>(
    point: FilterPoint<M>,
    oracle: spec_fn(Seq<M>, int) -> bool,
) -> Seq<M> {
    match point {
        FilterPoint::AskRecorded { items, .. } => items,
        FilterPoint::AskSubtitle(at) => at.kept + chosen(at.todo, at.recorded, at.sub, oracle),
        FilterPoint::Finished(items) => items,
    }
}

pub(crate) proof fn lemma_advance_outcome<M: Media>(
    at: Position<M>,
    oracle: spec_fn(Seq<M>, int) -> bool,
)
    requires
        at.sub >= 0,
    ensures
        outcome(at.advance(), oracle) == at.kept + chosen(at.todo, at.recorded, at.sub, oracle),
        at.advance() is AskRecorded == false,
        at.advance() matches FilterPoint::AskSubtitle(next) ==> next.asks(),
    decreases at.todo.len(),
{
    if at.todo.len() == 0 {
        assert(at.kept + Seq::<M>::empty() =~= at.kept);
    } else if !at.recorded.contains(at.todo[0].spec_id()) {
        lemma_advance_outcome(at.keep(), oracle);
        let rest = chosen(at.todo.drop_first(), at.recorded, 0, oracle);
        assert(at.kept.push(at.todo[0]) + rest =~= at.kept + (seq![at.todo[0]] + rest));
    } else {
        let subtitles = at.todo[0].spec_subtitles();
        lemma_next_coded(subtitles, at.sub);
        match next_coded(subtitles, at.sub) {
            Some(sub) => {
                if some_left(at.todo, at.sub, oracle) {
                    let left = choose|k: int|
                        at.sub <= k < subtitles.len() && (#[trigger] subtitles[k]).code() is Some
                            && !oracle(at.todo, k);
                    assert(sub <= left);
                    assert(some_left(at.todo, sub, oracle));
                }
                if some_left(at.todo, sub, oracle) {
                    let left = choose|k: int|
                        sub <= k < subtitles.len() && (#[trigger] subtitles[k]).code() is Some
                            && !oracle(at.todo, k);
                    assert(some_left(at.todo, at.sub, oracle));
                }
            },
            None => {
                lemma_advance_outcome(at.skip(), oracle);
                assert(!some_left(at.todo, at.sub, oracle));
            },
        }
    }
}

pub(crate) proof fn lemma_after_outcome<M: Media>(
    at: Position<M>,
    oracle: spec_fn(Seq<M>, int) -> bool,
)
    requires
        at.asks(),
    ensures
        outcome(at.after(oracle(at.todo, at.sub)), oracle) == outcome(
            FilterPoint::AskSubtitle(at),
            oracle,
        ),
        at.after(oracle(at.todo, at.sub)) matches FilterPoint::AskSubtitle(next) ==> next.asks(),
{
    let subtitles = at.todo[0].spec_subtitles();
    if oracle(at.todo, at.sub) {
        let next = Position { sub: at.sub + 1, ..at };
        lemma_advance_outcome(next, oracle);
        if some_left(at.todo, at.sub, oracle) {
            let left = choose|k: int|
                at.sub <= k < subtitles.len() && (#[trigger] subtitles[k]).code() is Some
                    && !oracle(at.todo, k);
            assert(left != at.sub);
            assert(some_left(at.todo, at.sub + 1, oracle));
        }
        if some_left(at.todo, at.sub + 1, oracle) {
            let left = choose|k: int|
                at.sub + 1 <= k < subtitles.len() && (#[trigger] subtitles[k]).code() is Some
                    && !oracle(at.todo, k);
            assert(some_left(at.todo, at.sub, oracle));
        }
    } else {
        lemma_advance_outcome(at.keep(), oracle);
        assert(subtitles[at.sub].code() is Some);
        assert(some_left(at.todo, at.sub, oracle));
        let rest = chosen(at.todo.drop_first(), at.recorded, 0, oracle);
        assert(at.kept.push(at.todo[0]) + rest =~= at.kept + (seq![at.todo[0]] + rest));
    }
}

proof fn lemma_run_outcome<M: Media>(
    point: FilterPoint<M>,
    answers: Seq<bool>,
    oracle: spec_fn(Seq<M>, int) -> bool,
)
    requires
        point matches FilterPoint::AskSubtitle(at) ==> at.asks(),
        given_by(point, answers, oracle),
    ensures
        outcome(run(point, answers), oracle) == outcome(point, oracle),
    decreases answers.len(),
{
    if let FilterPoint::AskSubtitle(at) = point {
        if answers.len() > 0 {
            lemma_after_outcome(at, oracle);
            lemma_run_outcome(at.after(answers[0]), answers.drop_first(), oracle);
        }
    }
}

/// With answers that `oracle` gives, filtering keeps, in their order, the media without a
/// record and those with a subtitle that has a language code and is not processed according
/// to `oracle`, and no others.
pub proof fn law_filter_keeps<M: Media>(
    items: Seq<M>,
    recorded: Set<u32>,
    action: Seq<char>,
    answers: Seq<bool>,
    oracle: spec_fn(Seq<M>, int) -> bool,
    kept: Seq<M>,
)
    requires
        given_by(with_recorded(items, recorded, action), answers, oracle),
        run(with_recorded(items, recorded, action), answers) == FilterPoint::Finished(kept),
    ensures
        kept == chosen(items, recorded, 0, oracle),
{
    let start = Position { kept: Seq::empty(), todo: items, recorded, sub: 0, action };
    lemma_advance_outcome(start, oracle);
    lemma_run_outcome(start.advance(), answers, oracle);
    assert(Seq::<M>::empty() + chosen(items, recorded, 0, oracle) =~= chosen(
        items,
        recorded,
        0,
        oracle,
    ));
}

/// `kept` holds the elements of `items` at `positions`, which go up.
pub open spec fn picks<M>(kept: Seq<M>, items: Seq<M>, positions: Seq<int>) -> bool {
    &&& positions.len() == kept.len()
    &&& forall|i: int|
        0 <= i < kept.len() ==> 0 <= #[trigger] positions[i] < items.len() && kept[i]
            == items[positions[i]]
    &&& forall|i: int, j: int|
        0 <= i < j < kept.len() ==> #[trigger] positions[i] < #[trigger] positions[j]
}

/// `kept` is picked from `items` at `positions`, and every item without a record is picked.
pub open spec fn selects<M: Media>(
    kept: Seq<M>,
    items: Seq<M>,
    recorded: Set<u32>,
    positions: Seq<int>,
) -> bool {
    &&& picks(kept, items, positions)
    &&& forall|k: int|
        0 <= k < items.len() && !recorded.contains((#[trigger] items[k]).spec_id())
            ==> positions.contains(k)
}

/// `kept` holds some of the items, each at most once and in their order, and among them all
/// that have no record.
pub open spec fn is_selection<M: Media>(kept: Seq<M>, items: Seq<M>, recorded: Set<u32>) -> bool {
    exists|positions: Seq<int>| #[trigger] selects(kept, items, recorded, positions)
}

/// The media settled so far are all of `items` but `todo`. What is kept has been picked from
/// them, at `positions`, and all that have no record are kept.
spec fn picking<M: Media>(at: Position<M>, items: Seq<M>, positions: Seq<int>) -> bool {
    &&& at.todo.len() <= items.len()
    &&& at.todo == items.skip(items.len() - at.todo.len())
    &&& picks(at.kept, items, positions)
    &&& forall|i: int|
        0 <= i < positions.len() ==> #[trigger] positions[i] < items.len() - at.todo.len()
    &&& forall|k: int|
        0 <= k < items.len() - at.todo.len() && !at.recorded.contains(
            (#[trigger] items[k]).spec_id(),
        ) ==> positions.contains(k)
}

/// What has been kept at a point has been picked from `items`.
spec fn picked<M: Media>(point: FilterPoint<M>, items: Seq<M>, recorded: Set<u32>) -> bool {
    match point {
        FilterPoint::AskRecorded { .. } => false,
        FilterPoint::AskSubtitle(at) => at.asks() && at.recorded == recorded
            && exists|positions: Seq<int>| #[trigger] picking(at, items, positions),
        FilterPoint::Finished(kept) => is_selection(kept, items, recorded),
    }
}

proof fn lemma_picking_keep<M: Media>(at: Position<M>, items: Seq<M>, positions: Seq<int>)
    requires
        at.todo.len() > 0,
        picking(at, items, positions),
    ensures
        picking(at.keep(), items, positions.push(items.len() - at.todo.len())),
{
    let next = items.len() - at.todo.len();
    let after = positions.push(next);
    assert(at.todo[0] == items[next]);
    assert(at.keep().todo =~= items.skip(next + 1));
    assert forall|k: int|
        0 <= k < next + 1 && !at.recorded.contains(
            (#[trigger] items[k]).spec_id(),
        ) implies after.contains(k) by {
        if k < next {
            let i = choose|i: int| 0 <= i < positions.len() && positions[i] == k;
            assert(after[i] == k);
        } else {
            assert(after[positions.len() as int] == k);
        }
    }
}

proof fn lemma_picking_skip<M: Media>(at: Position<M>, items: Seq<M>, positions: Seq<int>)
    requires
        at.todo.len() > 0,
        at.recorded.contains(at.todo[0].spec_id()),
        picking(at, items, positions),
    ensures
        picking(at.skip(), items, positions),
{
    let next = items.len() - at.todo.len();
    assert(at.todo[0] == items[next]);
    assert(at.skip().todo =~= items.skip(next + 1));
}

proof fn lemma_advance_picked<M: Media>(at: Position<M>, items: Seq<M>, positions: Seq<int>)
    requires
        at.sub >= 0,
        picking(at, items, positions),
    ensures
        picked(at.advance(), items, at.recorded),
    decreases at.todo.len(),
{
    if at.todo.len() > 0 {
        if !at.recorded.contains(at.todo[0].spec_id()) {
            lemma_picking_keep(at, items, positions);
            lemma_advance_picked(
                at.keep(),
                items,
                positions.push(items.len() - at.todo.len()),
            );
        } else {
            lemma_next_coded(at.todo[0].spec_subtitles(), at.sub);
            match next_coded(at.todo[0].spec_subtitles(), at.sub) {
                Some(sub) => {
                    assert(picking(Position { sub, ..at }, items, positions));
                },
                None => {
                    lemma_picking_skip(at, items, positions);
                    lemma_advance_picked(at.skip(), items, positions);
                },
            }
        }
    } else {
        assert(selects(at.kept, items, at.recorded, positions));
        assert(is_selection(at.kept, items, at.recorded));
    }
}

proof fn lemma_run_picked<M: Media>(
    point: FilterPoint<M>,
    answers: Seq<bool>,
    items: Seq<M>,
    recorded: Set<u32>,
)
    requires
        picked(point, items, recorded),
    ensures
        picked(run(point, answers), items, recorded),
    decreases answers.len(),
{
    if let FilterPoint::AskSubtitle(at) = point {
        if answers.len() > 0 {
            let positions = choose|positions: Seq<int>| #[trigger] picking(at, items, positions);
            if answers[0] {
                let next = Position { sub: at.sub + 1, ..at };
                assert(picking(next, items, positions));
                lemma_advance_picked(next, items, positions);
            } else {
                lemma_picking_keep(at, items, positions);
                lemma_advance_picked(
                    at.keep(),
                    items,
                    positions.push(items.len() - at.todo.len()),
                );
            }
            lemma_run_picked(at.after(answers[0]), answers.drop_first(), items, recorded);
        }
    }
}

/// Whatever ids are reported and whatever the answers are, filtering yields some of the items,
/// each at most once and in their order, and among them all that have no record.
pub proof fn law_filter_picks<M: Media>(
    items: Seq<M>,
    recorded: Set<u32>,
    action: Seq<char>,
    answers: Seq<bool>,
    kept: Seq<M>,
)
    requires
        run(with_recorded(items, recorded, action), answers) == FilterPoint::Finished(kept),
    ensures
        is_selection(kept, items, recorded),
{
    let start = Position { kept: Seq::empty(), todo: items, recorded, sub: 0, action };
    assert(items.skip(0) =~= items);
    assert(picking(start, items, Seq::empty()));
    lemma_advance_picked(start, items, Seq::empty());
    lemma_run_picked(start.advance(), answers, items, recorded);
}

/// What a database answers to the questions of filtering: whether there is a record of the
/// subtitle.
pub open spec fn answer_of<M: Media>(store: Store, action: Seq<char>) -> spec_fn(
    Seq<M>,
    int,
) -> bool {
    |todo: Seq<M>, sub: int|
        has_key(
            store.rows(M::spec_table()),
            Key {
                media_id: todo[0].spec_id() as int,
                language_code: todo[0].spec_subtitles()[sub].code()->0,
                action,
            },
        )
}

pub(crate) proof fn lemma_chosen_wanted<M: Media>(
    store: Store,
    todo: Seq<M>,
    recorded: Set<u32>,
    action: Seq<char>,
)
    requires
        forall|i: int|
            0 <= i < todo.len() ==> recorded.contains((#[trigger] todo[i]).spec_id()) == has_any(
                store.rows(M::spec_table()),
                todo[i].spec_id() as int,
                action,
            ),
    ensures
        chosen(todo, recorded, 0, answer_of(store, action)) == todo.filter(
            |item: M| store.wanted(item, action),
        ),
    decreases todo.len(),
{
    let wanted = |item: M| store.wanted(item, action);
    let oracle = answer_of::<M>(store, action);
    if todo.len() == 0 {
        reveal(Seq::filter);
        assert(todo.filter(wanted) =~= Seq::<M>::empty());
    } else {
        let first = seq![todo[0]];
        let rest = todo.drop_first();
        lemma_chosen_wanted(store, rest, recorded, action);
        assert(todo =~= first + rest);
        Seq::filter_distributes_over_add(first, rest, wanted);
        assert(first.filter(wanted) =~= if wanted(todo[0]) {
            first
        } else {
            Seq::empty()
        }) by {
            reveal(Seq::filter);
            assert(first.drop_last() =~= Seq::<M>::empty());
            assert(first.drop_last().filter(wanted) =~= Seq::<M>::empty());
        }
        assert(recorded.contains(todo[0].spec_id()) == has_any(
            store.rows(M::spec_table()),
            todo[0].spec_id() as int,
            action,
        ));
        if some_left(todo, 0, oracle) {
            let sub = choose|sub: int|
                0 <= sub < todo[0].spec_subtitles().len() && (
                #[trigger] todo[0].spec_subtitles()[sub]).code() is Some && !oracle(todo, sub);
            assert(store.unprocessed(todo[0], sub, action));
        }
        if exists|sub: int| #[trigger] store.unprocessed(todo[0], sub, action) {
            let sub = choose|sub: int| #[trigger] store.unprocessed(todo[0], sub, action);
            assert(todo[0].spec_subtitles()[sub].code() is Some);
            assert(!oracle(todo, sub));
            assert(some_left(todo, 0, oracle));
        }
        assert(Seq::<M>::empty() + rest.filter(wanted) =~= rest.filter(wanted));
    }
}

/// How many subtitles from `from` on have a language code.
pub open spec fn count_coded(subtitles: Seq<Subtitle>, from: int) -> nat
    decreases subtitles.len() - from,
{
    if from >= subtitles.len() {
        0
    } else if subtitles[from].code() is Some {
        1 + count_coded(subtitles, from + 1)
    } else {
        count_coded(subtitles, from + 1)
    }
}

/// How many subtitles of the media have a language code; of the first one, only those from
/// `from` on count.
pub open spec fn count_questions<M: Media>(todo: Seq<M>, from: int) -> nat
    decreases todo.len(),
{
    if todo.len() == 0 {
        0
    } else {
        count_coded(todo[0].spec_subtitles(), from) + count_questions(todo.drop_first(), 0)
    }
}

proof fn lemma_count_next(subtitles: Seq<Subtitle>, from: int)
    ensures
        match next_coded(subtitles, from) {
            Some(sub) => count_coded(subtitles, sub) == count_coded(subtitles, from),
            None => count_coded(subtitles, from) == 0,
        },
    decreases subtitles.len() - from,
{
    if from < subtitles.len() && subtitles[from].code() is None {
        lemma_count_next(subtitles, from + 1);
    }
}

pub(crate) proof fn lemma_advance_count<M: Media>(at: Position<M>)
    requires
        at.sub >= 0,
    ensures
        match at.advance() {
            FilterPoint::AskSubtitle(next) => next.asks() && count_questions(next.todo, next.sub)
                <= count_questions(at.todo, at.sub),
            FilterPoint::Finished(_) => true,
            FilterPoint::AskRecorded { .. } => false,
        },
    decreases at.todo.len(),
{
    if at.todo.len() > 0 {
        if !at.recorded.contains(at.todo[0].spec_id()) {
            lemma_advance_count(at.keep());
        } else {
            lemma_next_coded(at.todo[0].spec_subtitles(), at.sub);
            lemma_count_next(at.todo[0].spec_subtitles(), at.sub);
            if next_coded(at.todo[0].spec_subtitles(), at.sub) is None {
                lemma_advance_count(at.skip());
            }
        }
    }
}

proof fn lemma_run_ends<M: Media>(point: FilterPoint<M>, answers: Seq<bool>)
    requires
        match point {
            FilterPoint::AskSubtitle(at) => at.asks() && count_questions(at.todo, at.sub)
                <= answers.len(),
            FilterPoint::Finished(_) => true,
            FilterPoint::AskRecorded { .. } => false,
        },
    ensures
        run(point, answers) is Finished,
    decreases answers.len(),
{
    if let FilterPoint::AskSubtitle(at) = point {
        assert(count_coded(at.todo[0].spec_subtitles(), at.sub) == 1 + count_coded(
            at.todo[0].spec_subtitles(),
            at.sub + 1,
        ));
        lemma_advance_count(Position { sub: at.sub + 1, ..at });
        lemma_advance_count(at.keep());
        lemma_run_ends(at.after(answers[0]), answers.drop_first());
    }
}

/// Filtering comes to an end: it asks at most once about each subtitle with a language code.
pub proof fn law_filter_ends<M: Media>(
    items: Seq<M>,
    recorded: Set<u32>,
    action: Seq<char>,
    answers: Seq<bool>,
)
    requires
        answers.len() >= count_questions(items, 0),
    ensures
        run(with_recorded(items, recorded, action), answers) is Finished,
{
    let start = Position { kept: Seq::empty(), todo: items, recorded, sub: 0, action };
    lemma_advance_count(start);
    lemma_run_ends(start.advance(), answers);
}

/// Where filtering has come to after at most `n` questions have been put to a database. A
/// question that the database refuses ends it with an error, which is `None` here.
pub open spec fn run_on<M: Media>(
    store: Store,
    point: FilterPoint<M>,
    n: nat,
) -> Option<FilterPoint<M>>
    decreases n,
{
    if n == 0 {
        Some(point)
    } else {
        match point {
            FilterPoint::AskRecorded { items, action } => match store.recorded(
                M::spec_table(),
                items.map_values(|item: M| item.spec_id()),
                action,
            ) {
                Some(recorded) => run_on(
                    store,
                    with_recorded(items, recorded, action),
                    (n - 1) as nat,
                ),
                None => None,
            },
            FilterPoint::AskSubtitle(at) => match store.has_record(M::spec_table(), at.key()) {
                Some(processed) => run_on(store, at.after(processed), (n - 1) as nat),
                None => None,
            },
            FilterPoint::Finished(_) => Some(point),
        }
    }
}

pub(crate) proof fn lemma_advance_action<M: Media>(at: Position<M>)
    ensures
        at.advance() matches FilterPoint::AskSubtitle(next) ==> next.action == at.action,
    decreases at.todo.len(),
{
    if at.todo.len() > 0 {
        lemma_advance_action(at.keep());
        lemma_advance_action(at.skip());
    }
}

proof fn lemma_run_on<M: Media>(
    store: Store,
    point: FilterPoint<M>,
    action: Seq<char>,
    n: nat,
)
    requires
        store.is_roomy(),
        store.table(M::spec_table()) is Current,
        match point {
            FilterPoint::AskSubtitle(at) => {
                &&& at.asks()
                &&& at.action == action
                &&& count_questions(at.todo, at.sub) <= n
            },
            FilterPoint::Finished(_) => true,
            FilterPoint::AskRecorded { .. } => false,
        },
    ensures
        run_on(store, point, n) == Some(
            FilterPoint::Finished(outcome(point, answer_of(store, action))),
        ),
    decreases n,
{
    if let FilterPoint::AskSubtitle(at) = point {
        let oracle = answer_of::<M>(store, action);
        let processed = has_key(store.rows(M::spec_table()), at.key());
        assert(processed == oracle(at.todo, at.sub));
        assert(count_coded(at.todo[0].spec_subtitles(), at.sub) == 1 + count_coded(
            at.todo[0].spec_subtitles(),
            at.sub + 1,
        ));
        lemma_after_outcome(at, oracle);
        lemma_advance_count(Position { sub: at.sub + 1, ..at });
        lemma_advance_count(at.keep());
        lemma_advance_action(Position { sub: at.sub + 1, ..at });
        lemma_advance_action(at.keep());
        lemma_run_on(store, at.after(processed), action, (n - 1) as nat);
    }
}

/// Put to a database, filtering ends after one question and at most one more for each
/// subtitle with a language code. Without items nothing is asked, whatever the database is.
/// With items it yields, in their order, those that the action still has something to do on;
/// if their table is not in the current schema, or there are more of them than a query can
/// bind, it ends with an error.
pub proof fn law_filter_result<M: Media>(store: Store, items: Seq<M>, action: Seq<char>, n: nat)
    requires
        store.is_roomy(),
        n > count_questions(items, 0),
    ensures
        run_on(store, filter_start(items, action), n) == if items.len() == 0 {
            Some(FilterPoint::Finished(items))
        } else if store.table(M::spec_table()) is Current && items.len() + 1 <= store.max_params {
            Some(FilterPoint::Finished(items.filter(|item: M| store.wanted(item, action))))
        } else {
            None
        },
{
    let ids = items.map_values(|item: M| item.spec_id());
    if items.len() > 0 && store.recorded(M::spec_table(), ids, action) is Some {
        let recorded = store.recorded(M::spec_table(), ids, action)->0;
        let oracle = answer_of::<M>(store, action);
        assert forall|i: int| 0 <= i < items.len() implies recorded.contains(
            (#[trigger] items[i]).spec_id(),
        ) == has_any(store.rows(M::spec_table()), items[i].spec_id() as int, action) by {
            assert(ids[i] == items[i].spec_id());
            assert(ids.contains(items[i].spec_id()));
        }
        let start = Position { kept: Seq::empty(), todo: items, recorded, sub: 0, action };
        lemma_advance_outcome(start, oracle);
        lemma_advance_count(start);
        lemma_advance_action(start);
        lemma_run_on(store, start.advance(), action, (n - 1) as nat);
        lemma_chosen_wanted(store, items, recorded, action);
        assert(Seq::<M>::empty() + chosen(items, recorded, 0, oracle) =~= chosen(
            items,
            recorded,
            0,
            oracle,
        ));
    }
}

proof fn lemma_count_uncoded(subtitles: Seq<Subtitle>, from: int)
    requires
        from >= 0,
        forall|sub: int| 0 <= sub < subtitles.len() ==> (#[trigger] subtitles[sub]).code() is None,
    ensures
        count_coded(subtitles, from) == 0,
    decreases subtitles.len() - from,
{
    if from < subtitles.len() {
        lemma_count_uncoded(subtitles, from + 1);
    }
}

/// A medium without any subtitle that has a language code is still yielded after all its
/// subtitles have been marked, while nothing else records it for the action.
pub proof fn law_uncoded_is_yielded<M: Media>(
    store: Store,
    item: M,
    title: String,
    action: String,
    steps: Seq<(MarkStep, int, u64)>,
    n: nat,
)
    requires
        store.is_roomy(),
        store.table(M::spec_table()) is Current,
        forall|sub: int|
            0 <= sub < item.spec_subtitles().len() ==> (
            #[trigger] item.spec_subtitles()[sub]).code() is None,
        !has_any(store.rows(M::spec_table()), item.spec_id() as int, action@),
        marks_all(steps, item, title, action),
        n > 0,
    ensures
        store.after_marks(steps) matches Some(after) && run_on(
            after,
            filter_start(seq![item], action@),
            n,
        ) == Some(FilterPoint::Finished(seq![item])),
{
    let items = seq![item];
    let wanted = |item: M| store.wanted(item, action@);
    law_uncoded_stays_wanted(store, item, title, action, steps);
    lemma_count_uncoded(item.spec_subtitles(), 0);
    assert(items.drop_first() =~= Seq::<M>::empty());
    assert(count_questions(items.drop_first(), 0) == 0);
    assert(count_questions(items, 0) == 0);
    law_filter_result(store, items, action@, n);
    assert(items.filter(wanted) =~= items) by {
        reveal(Seq::filter);
        assert(items.drop_last() =~= Seq::<M>::empty());
        assert(items.drop_last().filter(wanted) =~= Seq::<M>::empty());
        assert(items.filter(wanted) == items.drop_last().filter(wanted).push(item));
    }
}

} // verus!
