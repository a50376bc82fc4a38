//! Finding the media that an action still has subtitles to process in.
//!
//! The database is asked once which of the media it has any record of. Media without
//! one are kept. For each of the others it is asked about one subtitle after another,
//! until one turns out unprocessed. Subtitles without a language code are passed over.

use std::collections::HashSet;

use vstd::prelude::*;

use crate::decimal::{append_decimal, decimal};
use crate::media::{Episode, Media, Movie, Subtitle};
use crate::records::{Lookup, RecordedIds};
use crate::store::Key;

verus! {

/// A point at which a subtitle is considered: subtitle `sub` of `todo[0]`.
pub struct Position<M> {
    /// The media kept so far.
    pub kept: Seq<M>,
    /// The media not settled yet.
    pub todo: Seq<M>,
    /// The ids of the media with a record.
    pub recorded: Set<u32>,
    /// The subtitle of `todo[0]` that is next.
    pub sub: int,
    pub action: Seq<char>,
}

impl<M: Media> Position<M> {
    /// There is a question to ask here.
    pub open spec fn asks(self) -> bool {
        &&& self.todo.len() > 0
        &&& self.recorded.contains(self.todo[0].spec_id())
        &&& 0 <= self.sub < self.todo[0].spec_subtitles().len()
        &&& self.todo[0].spec_subtitles()[self.sub].code() is Some
    }

    /// The key that is asked about here.
    pub open spec fn key(self) -> Key {
        Key {
            media_id: self.todo[0].spec_id() as int,
            language_code: self.todo[0].spec_subtitles()[self.sub].code()->0,
            action: self.action,
        }
    }

    /// The position with `todo[0]` kept.
    pub open spec fn keep(self) -> Self {
        Position {
            kept: self.kept.push(self.todo[0]),
            todo: self.todo.drop_first(),
            sub: 0,
            ..self
        }
    }

    /// The position with `todo[0]` dropped.
    pub open spec fn skip(self) -> Self {
        Position { todo: self.todo.drop_first(), sub: 0, ..self }
    }

    /// Goes on from here to the next question, settling the media on the way that need none.
    pub open spec fn advance(self) -> FilterPoint<M>
        decreases self.todo.len(),
    {
        if self.todo.len() == 0 {
            FilterPoint::Finished(self.kept)
        } else if !self.recorded.contains(self.todo[0].spec_id()) {
            self.keep().advance()
        } else {
            match next_coded(self.todo[0].spec_subtitles(), self.sub) {
                Some(sub) => FilterPoint::AskSubtitle(Position { sub, ..self }),
                None => self.skip().advance(),
            }
        }
    }

    /// Goes on after the answer to the question asked here: after a processed subtitle
    /// come those behind it, and one that is not processed settles that the medium is kept.
    pub open spec fn after(self, processed: bool) -> FilterPoint<M> {
        if processed {
            Position { sub: self.sub + 1, ..self }.advance()
        } else {
            self.keep().advance()
        }
    }
}

/// How far filtering has come.
pub enum FilterPoint<M> {
    /// To be asked: which of the items have a record for the action.
    AskRecorded { items: Seq<M>, action: Seq<char> },
    /// To be asked: whether a subtitle has been processed.
    AskSubtitle(Position<M>),
    /// These are the items that are left.
    Finished(Seq<M>),
}

/// The first subtitle, from `from` on, that has a language code.
pub open spec fn next_coded(subtitles: Seq<Subtitle>, from: int) -> Option<int>
    decreases subtitles.len() - from,
{
    if from >= subtitles.len() {
        None
    } else if subtitles[from].code() is Some {
        Some(from)
    } else {
        next_coded(subtitles, from + 1)
    }
}

/// How filtering starts: with no items there is nothing to ask.
pub open spec fn filter_start<M>(items: Seq<M>, action: Seq<char>) -> FilterPoint<M> {
    if items.len() == 0 {
        FilterPoint::Finished(items)
    } else {
        FilterPoint::AskRecorded { items, action }
    }
}

/// How filtering goes on once it is known which media have a record.
pub open spec fn with_recorded<M: Media>(
    items: Seq<M>,
    recorded: Set<u32>,
    action: Seq<char>,
) -> FilterPoint<M> {
    Position { kept: Seq::empty(), todo: items, recorded, sub: 0, action }.advance()
}

/// How filtering goes on.
pub enum FilterStep<M: Media> {
    /// Ask for [`RecordedAsked::request`], and hand the ids to [`RecordedAsked::reply`].
    AskRecorded(RecordedAsked<M>),
    /// Ask for [`SubtitleAsked::request`], and hand the answer to [`SubtitleAsked::reply`].
    AskSubtitle(SubtitleAsked<M>),
    /// These are the items that are left.
    Finished(Vec<M>),
}

impl<M: Media> View for FilterStep<M> {
    type V = FilterPoint<M>;

    open spec fn view(&self) -> FilterPoint<M> {
        match self {
            FilterStep::AskRecorded(asked) => FilterPoint::AskRecorded {
                items: asked.items(),
                action: asked.action(),
            },
            FilterStep::AskSubtitle(asked) => FilterPoint::AskSubtitle(asked@),
            FilterStep::Finished(items) => FilterPoint::Finished(items@),
        }
    }
}

/// Filtering, before it is known which of the items have a record.
pub struct RecordedAsked<M: Media> {
    pending: Vec<M>,
    for_action: String,
}

impl<M: Media> RecordedAsked<M> {
    pub closed spec fn items(self) -> Seq<M> {
        self.pending@
    }

    pub closed spec fn action(self) -> Seq<char> {
        self.for_action@
    }

    /// The question: which of the items have a record for the action.
    pub fn request(&self) -> (request: RecordedIds)
        ensures
            request.table == M::spec_table(),
            request.media_ids@ == self.items().map_values(|item: M| item.spec_id()),
            request.action@ == self.action(),
    {
        let mut media_ids: Vec<u32> = Vec::new();
        let mut i: usize = 0;
        while i < self.pending.len()
            invariant
                i <= self.pending@.len(),
                media_ids@ == self.pending@.take(i as int).map_values(|item: M| item.spec_id()),
            decreases self.pending@.len() - i,
        {
            media_ids.push(self.pending[i].id());
            i = i + 1;
            assert(media_ids@ =~= self.pending@.take(i as int).map_values(
                |item: M| item.spec_id(),
            ));
        }
        assert(self.pending@.take(i as int) =~= self.pending@);
        RecordedIds { table: M::table(), media_ids, action: self.for_action.clone() }
    }

    /// Goes on with the ids that have a record. An error ends the filtering.
    pub fn reply<E>(self, recorded: Result<Vec<u32>, E>) -> (step: Result<FilterStep<M>, E>)
        ensures
            match recorded {
                Ok(ids) => step matches Ok(next) && next@ == with_recorded(
                    self.items(),
                    ids@.to_set(),
                    self.action(),
                ),
                Err(error) => step == Err::<FilterStep<M>, E>(error),
            },
    {
        let ids = match recorded {
            Ok(ids) => ids,
            Err(error) => {
                return Err(error);
            },
        };
        let found = collect_ids(&ids);
        let RecordedAsked { pending, for_action } = self;
        let mut items = pending;
        let mut todo: Vec<M> = Vec::new();
        let ghost all = items@;
        while items.len() > 0
            invariant
                items@ + todo@.reverse() == all,
            decreases items@.len(),
        {
            let ghost before = items@ + todo@.reverse();
            if let Some(item) = items.pop() {
                todo.push(item);
            }
            assert(items@ + todo@.reverse() =~= before);
        }
        assert(todo@.reverse() =~= all);
        Ok(advance(found, Vec::new(), todo, 0, for_action))
    }
}

/// Filtering, at a subtitle of an item with a record.
pub struct SubtitleAsked<M: Media> {
    recorded: HashSet<u32>,
    kept: Vec<M>,
    // The items not settled yet, the next of them last.
    todo: Vec<M>,
    sub: usize,
    action: String,
}

impl<M: Media> View for SubtitleAsked<M> {
    type V = Position<M>;

    closed spec fn view(&self) -> Position<M> {
        Position {
            kept: self.kept@,
            todo: self.todo@.reverse(),
            recorded: self.recorded@,
            sub: self.sub as int,
            action: self.action@,
        }
    }
}

impl<M: Media> SubtitleAsked<M> {
    #[verifier::type_invariant]
    spec fn inv(self) -> bool {
        &&& self@.asks()
        &&& self.sub < usize::MAX
    }

    /// The question: whether the subtitle has been processed.
    pub fn request(&self) -> (request: Lookup)
        ensures
            self@.asks(),
            request.table == M::spec_table(),
            request.key() == self@.key(),
    {
        proof {
            use_type_invariant(self);
        }
        let item = &self.todo[self.todo.len() - 1];
        let media_id = item.id();
        let language_code = match &item.subtitles()[self.sub].audio_language_item.code2 {
            Some(code) => code.clone(),
            None => String::new(),
        };
        Lookup { table: M::table(), media_id, language_code, action: self.action.clone() }
    }

    /// Goes on with the answer. An error ends the filtering.
    pub fn reply<E>(self, processed: Result<bool, E>) -> (step: Result<FilterStep<M>, E>)
        ensures
            match processed {
                Ok(processed) => step matches Ok(next) && next@ == self@.after(processed),
                Err(error) => step == Err::<FilterStep<M>, E>(error),
            },
    {
        proof {
            use_type_invariant(&self);
        }
        let ghost at = self@;
        let processed = match processed {
            Ok(processed) => processed,
            Err(error) => {
                return Err(error);
            },
        };
        let SubtitleAsked { recorded, kept, todo, sub, action } = self;
        let step = if processed {
            advance(recorded, kept, todo, sub + 1, action)
        } else {
            let mut kept = kept;
            let mut todo = todo;
            if let Some(item) = todo.pop() {
                kept.push(item);
            }
            assert(todo@.reverse() =~= at.todo.drop_first());
            advance(recorded, kept, todo, 0, action)
        };
        Ok(step)
    }
}

/// Collects ids into a set.
fn collect_ids(ids: &Vec<u32>) -> (set: HashSet<u32>)
    ensures
        set@ == ids@.to_set(),
{
    broadcast use vstd::std_specs::hash::group_hash_axioms;

    let mut set: HashSet<u32> = HashSet::new();
    let mut i: usize = 0;
    while i < ids.len()
        invariant
            i <= ids@.len(),
            set@ == ids@.take(i as int).to_set(),
        decreases ids@.len() - i,
    {
        let ghost before = ids@.take(i as int);
        set.insert(ids[i]);
        i = i + 1;
        assert(ids@.take(i as int) =~= before.push(ids@[i - 1]));
        assert(ids@.take(i as int).to_set() =~= before.to_set().insert(ids@[i - 1])) by {
            assert(before.push(ids@[i - 1])[before.len() as int] == ids@[i - 1]);
            assert forall|x: u32| before.contains(x) implies before.push(ids@[i - 1]).contains(
                x,
            ) by {
                let k = choose|k: int| 0 <= k < before.len() && before[k] == x;
                assert(before.push(ids@[i - 1])[k] == x);
            }
        }
    }
    assert(ids@.take(i as int) =~= ids@);
    set
}

/// Finds the first subtitle, from `from` on, that has a language code.
fn find_coded(subtitles: &Vec<Subtitle>, from: usize) -> (found: Option<usize>)
    ensures
        match found {
            Some(sub) => sub < usize::MAX && next_coded(subtitles@, from as int) == Some(
                sub as int,
            ),
            None => next_coded(subtitles@, from as int) is None,
        },
{
    let mut sub: usize = from;
    while sub < subtitles.len()
        invariant
            next_coded(subtitles@, sub as int) == next_coded(subtitles@, from as int),
        decreases subtitles@.len() - sub,
    {
        if subtitles[sub].audio_language_item.code2.is_some() {
            return Some(sub);
        }
        sub = sub + 1;
    }
    None
}

/// [`next_coded`] finds a subtitle with a language code, passes over none, and fails only if
/// there is none.
pub proof fn lemma_next_coded(subtitles: Seq<Subtitle>, from: int)
    ensures
        match next_coded(subtitles, from) {
            Some(sub) => from <= sub < subtitles.len() && subtitles[sub].code() is Some && (
            forall|k: int| from <= k < sub ==> (#[trigger] subtitles[k]).code() is None),
            None => forall|k: int|
                from <= k < subtitles.len() ==> (#[trigger] subtitles[k]).code() is None,
        },
    decreases subtitles.len() - from,
{
    if from < subtitles.len() && subtitles[from].code() is None {
        lemma_next_coded(subtitles, from + 1);
    }
}

/// Settles items, from the last of `todo` on, until there is a question to ask.
#[verifier::loop_isolation(false)]
fn advance<M: Media>(
    recorded: HashSet<u32>,
    kept: Vec<M>,
    todo: Vec<M>,
    sub: usize,
    action: String,
) -> (step: FilterStep<M>)
    ensures
        step@ == (Position {
            kept: kept@,
            todo: todo@.reverse(),
            recorded: recorded@,
            sub: sub as int,
            action: action@,
        }).advance(),
{
    broadcast use vstd::std_specs::hash::group_hash_axioms;

    let ghost start = Position {
        kept: kept@,
        todo: todo@.reverse(),
        recorded: recorded@,
        sub: sub as int,
        action: action@,
    };
    let mut kept = kept;
    let mut todo = todo;
    let mut sub: usize = sub;
    while todo.len() > 0
        invariant
            (Position {
                kept: kept@,
                todo: todo@.reverse(),
                recorded: recorded@,
                sub: sub as int,
                action: action@,
            }).advance() == start.advance(),
        decreases todo@.len(),
    {
        let ghost here = Position {
            kept: kept@,
            todo: todo@.reverse(),
            recorded: recorded@,
            sub: sub as int,
            action: action@,
        };
        let item = &todo[todo.len() - 1];
        assert(here.todo[0] == item);
        if !recorded.contains(&item.id()) {
            if let Some(item) = todo.pop() {
                kept.push(item);
            }
            assert(todo@.reverse() =~= here.todo.drop_first());
        } else {
            proof {
                lemma_next_coded(here.todo[0].spec_subtitles(), here.sub);
            }
            match find_coded(item.subtitles(), sub) {
                Some(found) => {
                    return FilterStep::AskSubtitle(
                        SubtitleAsked { recorded, kept, todo, sub: found, action },
                    );
                },
                None => {
                    let _ = todo.pop();
                    assert(todo@.reverse() =~= here.todo.drop_first());
                },
            }
        }
        sub = 0;
    }
    FilterStep::Finished(kept)
}

/// Finds the items, of whatever type of media, that an action still has subtitles to process
/// in.
pub fn filter_unprocessed<M: Media>(items: Vec<M>, action: String) -> (step: FilterStep<M>)
    ensures
        step@ == filter_start(items@, action@),
{
    if items.len() == 0 {
        FilterStep::Finished(items)
    } else {
        FilterStep::AskRecorded(RecordedAsked { pending: items, for_action: action })
    }
}

/// Finds the movies that an action still has subtitles to process in.
pub fn filter_unprocessed_movies(movies: Vec<Movie>, action: String) -> (step: FilterStep<Movie>)
    ensures
        step@ == filter_start(movies@, action@),
{
    filter_unprocessed(movies, action)
}

pub const NO_EPISODES: &'static str = "No episodes to filter";

pub const CHECKING_HEAD: &'static str = "Checking ";

pub const CHECKING_TAIL: &'static str = " episodes in database";

/// What is printed before episodes are filtered.
#[derive(Clone, Copy, Debug, PartialEq, Eq, Structural)]
pub enum EpisodesNotice {
    /// There are none.
    NothingToFilter,
    /// There are this many.
    Checking(usize),
}

impl EpisodesNotice {
    /// The line that is printed.
    pub open spec fn line(self) -> Seq<char> {
        match self {
            EpisodesNotice::NothingToFilter => NO_EPISODES@,
            EpisodesNotice::Checking(n) => CHECKING_HEAD@ + decimal(n as nat) + CHECKING_TAIL@,
        }
    }

    /// The line to print.
    pub fn text(self) -> (text: String)
        ensures
            text@ == match self {
                EpisodesNotice::NothingToFilter => NO_EPISODES@,
                EpisodesNotice::Checking(n) => CHECKING_HEAD@ + decimal(n as nat)
                    + CHECKING_TAIL@,
            },
            text@ == self.line(),
    {
        match self {
            EpisodesNotice::NothingToFilter => NO_EPISODES.to_owned(),
            EpisodesNotice::Checking(n) => {
                let mut text = CHECKING_HEAD.to_owned();
                append_decimal(&mut text, n);
                text.append(CHECKING_TAIL);
                text
            },
        }
    }
}

/// Finds the episodes that an action still has subtitles to process in. The notice is to be
/// printed before the step is carried out; it counts every episode, also where ids repeat.
pub fn filter_unprocessed_episodes(
    episodes: Vec<Episode>,
    action: String,
) -> (started: (EpisodesNotice, FilterStep<Episode>))
    ensures
        match started.0 {
            EpisodesNotice::NothingToFilter => episodes@.len() == 0,
            EpisodesNotice::Checking(n) => n == episodes@.len() && n > 0,
        },
        started.1@ == filter_start(episodes@, action@),
{
    let notice = if episodes.len() == 0 {
        EpisodesNotice::NothingToFilter
    } else {
        EpisodesNotice::Checking(episodes.len())
    };
    (notice, filter_unprocessed(episodes, action))
}

} // verus!
