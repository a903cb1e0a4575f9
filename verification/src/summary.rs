//! The account of a run: how many tracks were written, were there already,
//! or failed.

use vstd::prelude::*;
use crate::pipeline::Outcome;

verus! {

/// The tally printed at the end of a run.
#[derive(Clone, Copy, PartialEq, Eq, Structural, Debug)]
pub struct RunSummary {
    pub errored: usize,
    pub existing: usize,
    pub written: usize,
    pub total: usize,
}

/// How often an outcome occurs in a list of outcomes.
pub open spec fn count_of(outcomes: Seq<Outcome>, wanted: Outcome) -> nat
    decreases outcomes.len(),
{
    if outcomes.len() == 0 {
        0
    } else {
        count_of(outcomes.drop_last(), wanted) + if outcomes.last() == wanted {
            1nat
        } else {
            0nat
        }
    }
}

/// Sums up a run over `total` tracks from the outcomes of the downloads
/// that were begun. Every track that was neither written nor found
/// existing counts as an error, whether its download was skipped or never
/// begun.
pub fn summarize(total: usize, outcomes: &Vec<Outcome>) -> (summary: RunSummary)
    requires
        outcomes.len() <= total,
    ensures
        summary.total == total,
        summary.written == count_of(outcomes@, Outcome::Written),
        summary.existing == count_of(outcomes@, Outcome::AlreadyExists),
        summary.errored == total - summary.written - summary.existing,
{
    let mut written: usize = 0;
    let mut existing: usize = 0;
    let mut i: usize = 0;
    while i < outcomes.len()
        invariant
            i <= outcomes.len() <= total,
            written == count_of(outcomes@.take(i as int), Outcome::Written),
            existing == count_of(outcomes@.take(i as int), Outcome::AlreadyExists),
            written + existing <= i,
        decreases outcomes.len() - i,
    {
        proof {
            assert(outcomes@.take(i + 1).drop_last() == outcomes@.take(i as int));
            assert(outcomes@.take(i + 1).last() == outcomes@[i as int]);
        }
        match outcomes[i] {
            Outcome::Written => {
                written += 1;
            },
            Outcome::AlreadyExists => {
                existing += 1;
            },
            Outcome::Skipped(_) => {},
        }
        i += 1;
    }
    assert(outcomes@.take(outcomes.len() as int) == outcomes@);
    RunSummary { errored: total - written - existing, existing, written, total }
}

} // verus!
