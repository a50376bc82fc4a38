//! Statements and the values bound to them.

use vstd::prelude::*;

use crate::records::{RecordedIds, EPISODE_IDS_HEAD, IDS_TAIL, MOVIE_IDS_HEAD};
use crate::statement::placeholders;

verus! {

/// How many question marks a text has.
pub open spec fn question_marks(text: Seq<char>) -> nat {
    text.filter(|c: char| c == '?').len()
}

proof fn lemma_no_marks(text: Seq<char>)
    requires
        forall|i: int| 0 <= i < text.len() ==> text[i] != '?',
    ensures
        question_marks(text) == 0,
    decreases text.len(),
{
    reveal(Seq::filter);
    if text.len() > 0 {
        lemma_no_marks(text.drop_last());
    }
}

proof fn lemma_marks_add(a: Seq<char>, b: Seq<char>)
    ensures
        question_marks(a + b) == question_marks(a) + question_marks(b),
{
    Seq::filter_distributes_over_add(a, b, |c: char| c == '?');
}

proof fn lemma_one_mark()
    ensures
        question_marks(seq!['?']) == 1,
{
    reveal(Seq::filter);
    assert(seq!['?'].drop_last() =~= Seq::empty());
    lemma_no_marks(seq!['?'].drop_last());
}

proof fn lemma_placeholders(n: nat)
    ensures
        question_marks(placeholders(n)) == n,
    decreases n,
{
    lemma_one_mark();
    if n == 0 {
        lemma_no_marks(placeholders(0));
    } else if n == 1 {
        assert(placeholders(1) =~= seq!['?']);
    } else {
        let before = placeholders((n - 1) as nat);
        lemma_placeholders((n - 1) as nat);
        assert(placeholders(n) =~= before + seq![','] + seq!['?']);
        lemma_no_marks(seq![',']);
        lemma_marks_add(before, seq![',']);
        lemma_marks_add(before + seq![','], seq!['?']);
    }
}

proof fn lemma_heads()
    ensures
        question_marks(MOVIE_IDS_HEAD@) == 0,
        question_marks(EPISODE_IDS_HEAD@) == 0,
        question_marks(IDS_TAIL@) == 1,
{
    reveal_strlit(
        "SELECT DISTINCT radarr_id FROM processed_movie_subtitles
    WHERE radarr_id IN (",
    );
    assert forall|i: int| 0 <= i < MOVIE_IDS_HEAD@.len() implies MOVIE_IDS_HEAD@[i] != '?' by {}
    lemma_no_marks(MOVIE_IDS_HEAD@);
    reveal_strlit(
        "SELECT DISTINCT sonarr_episode_id FROM processed_episode_subtitles
    WHERE sonarr_episode_id IN (",
    );
    assert forall|i: int| 0 <= i < EPISODE_IDS_HEAD@.len() implies EPISODE_IDS_HEAD@[i] != '?' by {}
    lemma_no_marks(EPISODE_IDS_HEAD@);
    reveal_strlit(") AND action = ?");
    let tail = IDS_TAIL@;
    let start = tail.drop_last();
    assert(tail =~= start + seq!['?']);
    lemma_no_marks(start);
    lemma_one_mark();
    lemma_marks_add(start, seq!['?']);
}

/// However many ids are asked about, the query has one question mark for each bound value.
pub proof fn law_every_value_is_bound(request: RecordedIds)
    ensures
        question_marks(request.text()) == request.values().len(),
{
    let n = request.media_ids@.len();
    lemma_heads();
    lemma_placeholders(n);
    lemma_marks_add(MOVIE_IDS_HEAD@, placeholders(n));
    lemma_marks_add(EPISODE_IDS_HEAD@, placeholders(n));
    lemma_marks_add(MOVIE_IDS_HEAD@ + placeholders(n), IDS_TAIL@);
    lemma_marks_add(EPISODE_IDS_HEAD@ + placeholders(n), IDS_TAIL@);
}

} // verus!
