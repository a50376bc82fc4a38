//! What is printed before episodes are filtered.

use vstd::prelude::*;

use crate::decimal::{decimal, digit};
use crate::filter::{filter_unprocessed_episodes, EpisodesNotice, FilterStep};
use crate::media::Episode;

verus! {

/// The character is a digit.
pub open spec fn is_digit(c: char) -> bool {
    '0' <= c <= '9'
}

/// The number that a sequence of digits stands for.
pub open spec fn number(digits: Seq<char>) -> int
    decreases digits.len(),
{
    if digits.len() == 0 {
        0
    } else {
        10 * number(digits.drop_last()) + (digits.last() as int - '0' as int)
    }
}

/// A number is written with these digits, without a zero in front of others.
pub open spec fn writes(digits: Seq<char>, n: int) -> bool {
    &&& digits.len() > 0
    &&& forall|i: int| 0 <= i < digits.len() ==> is_digit(#[trigger] digits[i])
    &&& digits.len() > 1 ==> digits[0] != '0'
    &&& number(digits) == n
}

/// A number is written with the digits of [`decimal`].
pub proof fn law_decimal(n: nat)
    ensures
        writes(decimal(n), n as int),
        n > 0 ==> decimal(n)[0] != '0',
    decreases n,
{
    let last: nat = n % 10;
    assert(digit(last) as int == '0' as int + last);
    if n < 10 {
        assert(decimal(n).drop_last() =~= Seq::empty());
        assert(number(decimal(n).drop_last()) == 0);
    } else {
        law_decimal(n / 10);
        let head = decimal(n / 10);
        assert(decimal(n) == head.push(digit(last)));
        assert(decimal(n).drop_last() =~= head);
        assert(decimal(n)[0] == head[0]);
        assert forall|i: int| 0 <= i < decimal(n).len() implies is_digit(
            #[trigger] decimal(n)[i],
        ) by {
            if i < head.len() {
                assert(decimal(n)[i] == head[i]);
            }
        }
    }
}

/// This is the line for so many episodes.
pub open spec fn is_line(text: Seq<char>, n: nat) -> bool {
    if n == 0 {
        text == "No episodes to filter"@
    } else {
        exists|digits: Seq<char>| #[trigger]
            writes(digits, n as int) && text == "Checking "@ + digits + " episodes in database"@
    }
}

/// What is printed before episodes are filtered says how many there are, or that there are
/// none.
pub proof fn law_notice(
    episodes: Vec<Episode>,
    action: String,
    started: (EpisodesNotice, FilterStep<Episode>),
    text: String,
)
    requires
        call_ensures(filter_unprocessed_episodes, (episodes, action), started),
        call_ensures(EpisodesNotice::text, (started.0,), text),
    ensures
        is_line(text@, episodes@.len()),
{
    law_decimal(episodes@.len());
}

} // verus!
