use vstd::prelude::*;

verus! {

/// The allow-list walk: the ordered entries are tried one by one and the first that
/// resolves to a live player wins; order is a priority, not a filter.
#[derive(Clone, Copy, PartialEq, Eq, Structural, Debug)]
pub enum SearchStep {
    Try(usize),
    Found(usize),
    Exhausted,
}

/// Where the walk starts for an allow-list of the given length.
pub open spec fn search_started(len: usize) -> SearchStep {
    if len == 0 {
        SearchStep::Exhausted
    } else {
        SearchStep::Try(0usize)
    }
}

/// Begin walking an allow-list of the given length.
pub fn search_start(len: usize) -> (s: SearchStep)
    ensures
        s == search_started(len),
{
    if len == 0 {
        SearchStep::Exhausted
    } else {
        SearchStep::Try(0)
    }
}

/// Advance the walk at entry `i` with the bus's answer: a hit ends it there, a miss
/// moves to the next entry or exhausts the list.
pub open spec fn search_advanced(i: usize, len: usize, found: bool) -> SearchStep {
    if found {
        SearchStep::Found(i)
    } else if i + 1 < len {
        SearchStep::Try((i + 1) as usize)
    } else {
        SearchStep::Exhausted
    }
}

/// Feed the bus's answer for entry `i` into the walk.
pub fn search_advance(i: usize, len: usize, found: bool) -> (s: SearchStep)
    requires
        i < len,
    ensures
        s == search_advanced(i, len, found),
{
    if found {
        SearchStep::Found(i)
    } else if i + 1 < len {
        SearchStep::Try(i + 1)
    } else {
        SearchStep::Exhausted
    }
}

/// The whole walk from entry `i` on, for a given sequence of bus answers.
pub open spec fn search_run(outcomes: Seq<bool>, i: int) -> SearchStep
    decreases outcomes.len() - i,
{
    if !(0 <= i < outcomes.len() <= usize::MAX) {
        SearchStep::Exhausted
    } else {
        match search_advanced(i as usize, outcomes.len() as usize, outcomes[i]) {
            SearchStep::Try(n) => search_run(outcomes, n as int),
            r => r,
        }
    }
}

/// The walk returns the first allow-list entry that resolves: if every entry before
/// `j` misses and `j` hits, the walk from `i` ends at `j`.
pub proof fn lemma_search_finds_first(outcomes: Seq<bool>, i: int, j: int)
    requires
        outcomes.len() <= usize::MAX,
        0 <= i <= j < outcomes.len(),
        outcomes[j],
        forall|k: int| i <= k < j ==> !outcomes[k],
    ensures
        search_run(outcomes, i) == SearchStep::Found(j as usize),
    decreases j - i,
{
    if i < j {
        assert(!outcomes[i]);
        lemma_search_finds_first(outcomes, i + 1, j);
    }
}

/// A walk over answers that all miss exhausts the list.
pub proof fn lemma_search_exhausts(outcomes: Seq<bool>, i: int)
    requires
        outcomes.len() <= usize::MAX,
        0 <= i <= outcomes.len(),
        forall|k: int| i <= k < outcomes.len() ==> !outcomes[k],
    ensures
        search_run(outcomes, i) == SearchStep::Exhausted,
    decreases outcomes.len() - i,
{
    if i < outcomes.len() {
        assert(!outcomes[i]);
        lemma_search_exhausts(outcomes, i + 1);
    }
}

} // verus!
