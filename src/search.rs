//! Fuzzy search of restaurants by name.

use fuzzy_matcher::skim::SkimMatcherV2;
use fuzzy_matcher::FuzzyMatcher;
use vstd::prelude::*;

use crate::db::Restaurant;

verus! {

/// The score that the skim matcher, set to ignore case, gives to `pattern`
/// as a fuzzy match inside `choice`; `None` when it does not match.
pub uninterp spec fn skim_score(choice: Seq<char>, pattern: Seq<char>) -> Option<i64>;

/// A character with ASCII capitals taken to lower case.
pub open spec fn ascii_fold(c: char) -> int {
    if 65 <= (c as u32) && (c as u32) <= 90 {
        (c as u32) + 32
    } else {
        (c as u32) as int
    }
}

/// Whether `p` is a subsequence of `c`, ASCII case aside.
pub open spec fn fuzzy_subseq(p: Seq<char>, c: Seq<char>) -> bool
    decreases c.len(),
{
    if p.len() == 0 {
        true
    } else if c.len() == 0 {
        false
    } else if ascii_fold(p.last()) == ascii_fold(c.last()) {
        fuzzy_subseq(p.drop_last(), c.drop_last())
    } else {
        fuzzy_subseq(p, c.drop_last())
    }
}

/// Relies on `FuzzyMatcher::fuzzy_match` of `SkimMatcherV2` (fuzzy-matcher),
/// built with `SkimMatcherV2::default().ignore_case()`: the score depends on
/// the two strings alone, and there is one exactly when the pattern is empty
/// or its characters occur in the choice in order, ASCII case aside.
#[verifier::external_body]
fn fuzzy_score(choice: &str, pattern: &str) -> (r: Option<i64>)
    ensures
        r == skim_score(choice@, pattern@),
        (r is Some) == fuzzy_subseq(pattern@, choice@),
{
    SkimMatcherV2::default().ignore_case().fuzzy_match(choice, pattern)
}

/// For each restaurant, whether its name fuzzily matches the pattern.
pub open spec fn match_flags_spec(rests: Seq<Restaurant>, pattern: Seq<char>) -> Seq<bool> {
    Seq::new(rests.len(), |i: int| fuzzy_subseq(pattern, rests[i].name@))
}

/// The ids of the restaurants whose flag is set, in their order.
pub open spec fn matched_ids(rests: Seq<Restaurant>, flags: Seq<bool>) -> Seq<i64>
    decreases rests.len(),
{
    if rests.len() == 0 || flags.len() == 0 {
        Seq::empty()
    } else {
        let prev = matched_ids(rests.drop_last(), flags.drop_last());
        if flags.last() {
            prev.push(rests.last().id)
        } else {
            prev
        }
    }
}

/// Marks the restaurants whose name matches the pattern.
pub fn match_flags(rests: &Vec<Restaurant>, pattern: &str) -> (r: Vec<bool>)
    ensures
        r@ == match_flags_spec(rests@, pattern@),
{
    let mut flags: Vec<bool> = Vec::new();
    let mut i: usize = 0;
    while i < rests.len()
        invariant
            i <= rests.len(),
            flags@ =~= match_flags_spec(rests@, pattern@).subrange(0, i as int),
        decreases rests.len() - i,
    {
        let score = fuzzy_score(rests[i].name.as_str(), pattern);
        flags.push(score.is_some());
        i = i + 1;
    }
    flags
}

/// The ids of the flagged restaurants, in the order they were given.
pub fn select_matches(rests: &Vec<Restaurant>, flags: &Vec<bool>) -> (r: Vec<i64>)
    requires
        rests.len() == flags.len(),
    ensures
        r@ == matched_ids(rests@, flags@),
{
    let mut ids: Vec<i64> = Vec::new();
    let mut i: usize = 0;
    while i < rests.len()
        invariant
            i <= rests.len(),
            rests.len() == flags.len(),
            ids@ == matched_ids(rests@.subrange(0, i as int), flags@.subrange(0, i as int)),
        decreases rests.len() - i,
    {
        let ghost r0 = rests@.subrange(0, i as int);
        let ghost f0 = flags@.subrange(0, i as int);
        assert(rests@.subrange(0, i + 1).drop_last() =~= r0);
        assert(flags@.subrange(0, i + 1).drop_last() =~= f0);
        if flags[i] {
            ids.push(rests[i].id);
        }
        i = i + 1;
    }
    assert(rests@.subrange(0, rests.len() as int) =~= rests@);
    assert(flags@.subrange(0, flags.len() as int) =~= flags@);
    ids
}

/// The ids of the restaurants whose name holds the characters of `pattern`
/// in order, ASCII case aside, in the order of the list: the same list and
/// pattern always give the same ids.
pub fn search_restaurants(rests: &Vec<Restaurant>, pattern: &str) -> (r: Vec<i64>)
    ensures
        r@ == matched_ids(rests@, match_flags_spec(rests@, pattern@)),
{
    let flags = match_flags(rests, pattern);
    select_matches(rests, &flags)
}

} // verus!
