//! Movies and episodes as the media manager reports them, reduced to what the
//! bookkeeping of processed subtitles reads.

use vstd::prelude::*;

verus! {

/// The two kinds of media; each has a table of its own.
#[derive(Clone, Copy, Debug, PartialEq, Eq, Structural)]
pub enum Table {
    Movies,
    Episodes,
}

/// The language of a subtitle. `code2` is its two-letter code, where it has one.
#[derive(Debug, PartialEq, Eq)]
pub struct AudioLanguageItem {
    pub name: String,
    pub code2: Option<String>,
}

#[derive(Debug, PartialEq, Eq)]
pub struct Subtitle {
    pub audio_language_item: AudioLanguageItem,
    pub path: Option<String>,
}

impl Subtitle {
    /// The two-letter language code, as text.
    pub open spec fn code(self) -> Option<Seq<char>> {
        match self.audio_language_item.code2 {
            Some(code) => Some(code@),
            None => None,
        }
    }
}

#[derive(Debug, PartialEq, Eq)]
pub struct Movie {
    pub radarr_id: u32,
    pub subtitles: Vec<Subtitle>,
}

#[derive(Debug, PartialEq, Eq)]
pub struct Episode {
    pub sonarr_episode_id: u32,
    pub subtitles: Vec<Subtitle>,
}

/// What a movie and an episode have in common: an id in their table, and subtitles.
pub trait Media: Sized {
    spec fn spec_table() -> Table;

    spec fn spec_id(self) -> u32;

    spec fn spec_subtitles(self) -> Seq<Subtitle>;

    fn table() -> (table: Table)
        ensures
            table == Self::spec_table(),
    ;

    fn id(&self) -> (id: u32)
        ensures
            id == self.spec_id(),
    ;

    fn subtitles(&self) -> (subtitles: &Vec<Subtitle>)
        ensures
            subtitles@ == self.spec_subtitles(),
    ;
}

impl Media for Movie {
    open spec fn spec_table() -> Table {
        Table::Movies
    }

    open spec fn spec_id(self) -> u32 {
        self.radarr_id
    }

    open spec fn spec_subtitles(self) -> Seq<Subtitle> {
        self.subtitles@
    }

    fn table() -> (table: Table)
        ensures
            table == Table::Movies,
    {
        Table::Movies
    }

    fn id(&self) -> (id: u32)
        ensures
            id == self.radarr_id,
    {
        self.radarr_id
    }

    fn subtitles(&self) -> (subtitles: &Vec<Subtitle>)
        ensures
            subtitles == self.subtitles,
    {
        &self.subtitles
    }
}

impl Media for Episode {
    open spec fn spec_table() -> Table {
        Table::Episodes
    }

    open spec fn spec_id(self) -> u32 {
        self.sonarr_episode_id
    }

    open spec fn spec_subtitles(self) -> Seq<Subtitle> {
        self.subtitles@
    }

    fn table() -> (table: Table)
        ensures
            table == Table::Episodes,
    {
        Table::Episodes
    }

    fn id(&self) -> (id: u32)
        ensures
            id == self.sonarr_episode_id,
    {
        self.sonarr_episode_id
    }

    fn subtitles(&self) -> (subtitles: &Vec<Subtitle>)
        ensures
            subtitles == self.subtitles,
    {
        &self.subtitles
    }
}

/// A medium with something more that belongs to it, which filtering hands back untouched.
#[derive(Debug, PartialEq, Eq)]
pub struct Tagged<M, T> {
    pub item: M,
    pub tag: T,
}

impl<M: Media, T> Media for Tagged<M, T> {
    open spec fn spec_table() -> Table {
        M::spec_table()
    }

    open spec fn spec_id(self) -> u32 {
        self.item.spec_id()
    }

    open spec fn spec_subtitles(self) -> Seq<Subtitle> {
        self.item.spec_subtitles()
    }

    fn table() -> (table: Table) {
        M::table()
    }

    fn id(&self) -> (id: u32) {
        self.item.id()
    }

    fn subtitles(&self) -> (subtitles: &Vec<Subtitle>) {
        self.item.subtitles()
    }
}

} // verus!
