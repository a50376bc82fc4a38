//! Marking subtitles, and what that means for looking them up.

use vstd::prelude::*;

use crate::media::{Media, Subtitle, Table};
use crate::records::{marks, Lookup, Mark, MarkStep};
use crate::store::{has_any, has_id, has_key, insert_new, Key, Record, Store};

verus! {

proof fn lemma_has_key_push(rows: Seq<Record>, record: Record, key: Key)
    ensures
        has_key(rows.push(record), key) == (has_key(rows, key) || record.key() == key),
{
    let after = rows.push(record);
    if has_key(rows, key) {
        let i = choose|i: int| 0 <= i < rows.len() && #[trigger] rows[i].key() == key;
        assert(after[i].key() == key);
    }
    if record.key() == key {
        assert(after[rows.len() as int].key() == key);
    }
    if has_key(after, key) {
        let i = choose|i: int| 0 <= i < after.len() && #[trigger] after[i].key() == key;
        if i < rows.len() {
            assert(rows[i].key() == key);
        }
    }
}

/// A subtitle counts as processed once it has been marked, for that medium, language and
/// action; whether any other does, is as it was before.
pub proof fn law_marked_is_processed(store: Store, mark: Mark, id: int, now: u64, lookup: Lookup)
    requires
        store.is_roomy(),
        store.table(mark.table) is Current,
        store.table(lookup.table) is Current,
    ensures
        store.marked(mark, id, now) matches Some(after) && after.holds(lookup) == Some(
            store.holds(lookup) == Some(true) || (lookup.table == mark.table && lookup.key()
                == mark.key()),
        ),
{
    lemma_has_key_push(store.rows(mark.table), mark.record(id, now), lookup.key());
}

/// A database stays prepared when a subtitle is marked: no key is ever recorded twice, and no
/// row id is used twice, given that a new record gets one that is not in use.
pub proof fn law_mark_keeps_prepared(store: Store, mark: Mark, id: int, now: u64)
    requires
        store.is_prepared(),
        !has_id(store.rows(mark.table), id),
    ensures
        store.marked(mark, id, now) matches Some(after) && after.is_prepared(),
{
    let rows = store.rows(mark.table);
    let after = store.marked(mark, id, now)->0.rows(mark.table);
    assert forall|i: int, j: int| 0 <= i < j < after.len() implies #[trigger] after[i].key()
        != #[trigger] after[j].key() by {
        assert(after[i] == rows[i]);
        if j < rows.len() {
            assert(after[j] == rows[j]);
            assert(rows[i].key() != rows[j].key());
        }
    }
    assert forall|i: int, j: int| 0 <= i < j < after.len() implies (#[trigger] after[i]).id != (
    #[trigger] after[j]).id by {
        assert(after[i] == rows[i]);
        if j < rows.len() {
            assert(after[j] == rows[j]);
            assert(rows[i].id != rows[j].id);
        }
    }
}

/// Marking a subtitle changes a row exactly if it was not processed before; marking it again,
/// at whatever time, changes nothing.
pub proof fn law_mark_again(store: Store, mark: Mark, id: int, now: u64, id2: int, now2: u64)
    requires
        store.is_roomy(),
        store.table(mark.table) is Current,
    ensures
        store.rows_changed(mark) == Some(
            if has_key(store.rows(mark.table), mark.key()) {
                0nat
            } else {
                1nat
            },
        ),
        store.rows_changed(mark) == Some(0nat) ==> store.marked(mark, id, now) == Some(store),
        store.marked(mark, id, now) matches Some(after) && {
            &&& after.rows_changed(mark) == Some(0nat)
            &&& after.marked(mark, id2, now2) == Some(after)
        },
{
    lemma_has_key_push(store.rows(mark.table), mark.record(id, now), mark.key());
}

/// A subtitle with a language code that has been marked is found by the lookup for the same
/// medium, code and action.
pub proof fn law_mark_then_lookup(
    store: Store,
    table: Table,
    media_id: u32,
    title: String,
    subtitle: Subtitle,
    action: String,
    step: MarkStep,
    id: int,
    now: u64,
    lookup: Lookup,
)
    requires
        store.is_roomy(),
        store.table(table) is Current,
        marks(step, table, media_id, title, subtitle, action),
        subtitle.code() is Some,
        lookup.table == table,
        lookup.key() == (Key {
            media_id: media_id as int,
            language_code: subtitle.code()->0,
            action: action@,
        }),
    ensures
        step matches MarkStep::Insert(mark) && store.marked(mark, id, now) matches Some(after)
            && after.holds(lookup) == Some(true),
{
    let mark = step->Insert_0;
    law_marked_is_processed(store, mark, id, now, lookup);
}

proof fn lemma_has_any_insert(rows: Seq<Record>, record: Record, media_id: int, action: Seq<char>)
    ensures
        has_any(insert_new(rows, record), media_id, action) == (has_any(rows, media_id, action) || (
        record.media_id == media_id && record.action == action)),
{
    let after = insert_new(rows, record);
    if has_any(rows, media_id, action) {
        let i = choose|i: int|
            0 <= i < rows.len() && (#[trigger] rows[i]).media_id == media_id && rows[i].action
                == action;
        assert(after[i] == rows[i]);
    }
    if record.media_id == media_id && record.action == action {
        if has_key(rows, record.key()) {
            let i = choose|i: int| 0 <= i < rows.len() && #[trigger] rows[i].key() == record.key();
            assert(rows[i].media_id == media_id);
        } else {
            assert(after[rows.len() as int] == record);
        }
    }
    if has_any(after, media_id, action) {
        let i = choose|i: int|
            0 <= i < after.len() && (#[trigger] after[i]).media_id == media_id && after[i].action
                == action;
        if i < rows.len() {
            assert(rows[i] == after[i]);
        }
    }
}

/// Each action is tracked on its own, and so are movies and episodes: what is wanted does not
/// change when a subtitle is marked for another action, or of the other kind of media.
pub proof fn law_actions_are_independent<M: Media>(
    store: Store,
    mark: Mark,
    id: int,
    now: u64,
    item: M,
    action: Seq<char>,
)
    requires
        store.is_roomy(),
        store.table(mark.table) is Current,
        store.table(M::spec_table()) is Current,
        mark.action@ != action || mark.table != M::spec_table(),
    ensures
        store.marked(mark, id, now) matches Some(after) && after.wanted(item, action)
            == store.wanted(item, action),
{
    let after = store.marked(mark, id, now)->0;
    lemma_has_any_insert(
        store.rows(mark.table),
        mark.record(id, now),
        item.spec_id() as int,
        action,
    );
    assert forall|sub: int| #[trigger]
        after.unprocessed(item, sub, action) == store.unprocessed(item, sub, action) by {
        if let Some(language_code) = item.spec_subtitles()[sub].code() {
            lemma_has_key_push(
                store.rows(mark.table),
                mark.record(id, now),
                Key { media_id: item.spec_id() as int, language_code, action },
            );
        }
    }
    if store.wanted(item, action) && exists|sub: int| #[trigger]
        store.unprocessed(item, sub, action) {
        let sub = choose|sub: int| #[trigger] store.unprocessed(item, sub, action);
        assert(after.unprocessed(item, sub, action));
    }
    if after.wanted(item, action) && exists|sub: int| #[trigger]
        after.unprocessed(item, sub, action) {
        let sub = choose|sub: int| #[trigger] after.unprocessed(item, sub, action);
        assert(store.unprocessed(item, sub, action));
    }
}

/// Marking subtitles never brings a medium back.
pub proof fn law_mark_settles<M: Media>(
    store: Store,
    mark: Mark,
    id: int,
    now: u64,
    item: M,
    action: Seq<char>,
)
    requires
        store.is_roomy(),
        store.table(mark.table) is Current,
        store.table(M::spec_table()) is Current,
        !store.wanted(item, action),
    ensures
        store.marked(mark, id, now) matches Some(after) && !after.wanted(item, action),
{
    let after = store.marked(mark, id, now)->0;
    lemma_has_any_insert(
        store.rows(mark.table),
        mark.record(id, now),
        item.spec_id() as int,
        action,
    );
    assert forall|sub: int| !(#[trigger] after.unprocessed(item, sub, action)) by {
        assert(!store.unprocessed(item, sub, action));
        if let Some(language_code) = item.spec_subtitles()[sub].code() {
            lemma_has_key_push(
                store.rows(mark.table),
                mark.record(id, now),
                Key { media_id: item.spec_id() as int, language_code, action },
            );
        }
    }
}

/// A medium is done with once each of its subtitles that has a language code is recorded,
/// provided there is such a subtitle; without one it is done with as soon as there is any
/// record of it for the action.
pub proof fn law_done_with<M: Media>(store: Store, item: M, action: Seq<char>)
    requires
        store.table(M::spec_table()) is Current,
        forall|sub: int|
            0 <= sub < item.spec_subtitles().len() ==> ((
            #[trigger] item.spec_subtitles()[sub]).code() matches Some(language_code) ==> has_key(
                store.rows(M::spec_table()),
                Key { media_id: item.spec_id() as int, language_code, action },
            )),
        (exists|sub: int|
            0 <= sub < item.spec_subtitles().len() && (
            #[trigger] item.spec_subtitles()[sub]).code() is Some) || has_any(
            store.rows(M::spec_table()),
            item.spec_id() as int,
            action,
        ),
    ensures
        !store.wanted(item, action),
{
    let rows = store.rows(M::spec_table());
    if exists|sub: int|
        0 <= sub < item.spec_subtitles().len() && (
        #[trigger] item.spec_subtitles()[sub]).code() is Some {
        let sub = choose|sub: int|
            0 <= sub < item.spec_subtitles().len() && (
            #[trigger] item.spec_subtitles()[sub]).code() is Some;
        let key = Key {
            media_id: item.spec_id() as int,
            language_code: item.spec_subtitles()[sub].code()->0,
            action,
        };
        assert(has_key(rows, key));
        let i = choose|i: int| 0 <= i < rows.len() && #[trigger] rows[i].key() == key;
        assert(rows[i].media_id == item.spec_id() as int && rows[i].action == action);
    }
}

/// Marking the subtitles of a medium, one after the other: each step is the one for the
/// subtitle in the same place.
pub open spec fn marks_all<M: Media>(
    steps: Seq<(MarkStep, int, u64)>,
    item: M,
    title: String,
    action: String,
) -> bool {
    &&& steps.len() == item.spec_subtitles().len()
    &&& forall|i: int|
        0 <= i < steps.len() ==> marks(
            (#[trigger] steps[i]).0,
            M::spec_table(),
            item.spec_id(),
            title,
            item.spec_subtitles()[i],
            action,
        )
}

proof fn lemma_finished_marks(store: Store, steps: Seq<(MarkStep, int, u64)>)
    requires
        forall|i: int| 0 <= i < steps.len() ==> (#[trigger] steps[i]).0 is Finished,
    ensures
        store.after_marks(steps) == Some(store),
    decreases steps.len(),
{
    if steps.len() > 0 {
        let rest = steps.drop_first();
        assert forall|i: int| 0 <= i < rest.len() implies (#[trigger] rest[i]).0 is Finished by {
            assert(rest[i] == steps[i + 1]);
        }
        assert(steps[0].0 is Finished);
        lemma_finished_marks(store, rest);
    }
}

/// A medium without any subtitle that has a language code cannot be marked away through its
/// own subtitles: each mark answers false and nothing is recorded. While nothing else records
/// the medium for the action, it is wanted.
pub proof fn law_uncoded_stays_wanted<M: Media>(
    store: Store,
    item: M,
    title: String,
    action: String,
    steps: Seq<(MarkStep, int, u64)>,
)
    requires
        store.table(M::spec_table()) is Current,
        forall|sub: int|
            0 <= sub < item.spec_subtitles().len() ==> (
            #[trigger] item.spec_subtitles()[sub]).code() is None,
        !has_any(store.rows(M::spec_table()), item.spec_id() as int, action@),
        marks_all(steps, item, title, action),
    ensures
        forall|i: int|
            0 <= i < steps.len() ==> (#[trigger] steps[i]).0 == MarkStep::Finished(false),
        store.after_marks(steps) == Some(store),
        store.wanted(item, action@),
{
    assert forall|i: int| 0 <= i < steps.len() implies (#[trigger] steps[i]).0
        == MarkStep::Finished(false) by {
        assert(item.spec_subtitles()[i].code() is None);
    }
    lemma_finished_marks(store, steps);
}

} // verus!
