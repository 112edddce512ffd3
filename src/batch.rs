use vstd::prelude::*;

use crate::error::PaletteError;

verus! {

/// The names, in order, of the repositories whose comparison with their
/// remote succeeded and found them apart: those a bulk push offers to push.
pub open spec fn candidates_of(comparisons: Seq<(String, Result<bool, PaletteError>)>) -> Seq<
    Seq<char>,
>
    decreases comparisons.len(),
{
    if comparisons.len() == 0 {
        Seq::empty()
    } else {
        let rest = candidates_of(comparisons.drop_last());
        if comparisons.last().1 == Ok::<bool, PaletteError>(true) {
            rest.push(comparisons.last().0@)
        } else {
            rest
        }
    }
}

/// Picks, from each repository's name and the outcome of comparing it with
/// its remote, the repositories that a bulk push should push. A repository
/// whose comparison failed is left out.
pub fn push_candidates(comparisons: &Vec<(String, Result<bool, PaletteError>)>) -> (r: Vec<String>)
    ensures
        r@.map_values(|s: String| s@) == candidates_of(comparisons@),
{
    let mut r: Vec<String> = Vec::new();
    let mut i: usize = 0;
    while i < comparisons.len()
        invariant
            0 <= i <= comparisons@.len(),
            r@.map_values(|s: String| s@) == candidates_of(comparisons@.take(i as int)),
        decreases comparisons@.len() - i,
    {
        proof {
            assert(comparisons@.take(i + 1).drop_last() =~= comparisons@.take(i as int));
        }
        let diverged = match &comparisons[i].1 {
            Ok(d) => *d,
            Err(_) => false,
        };
        if diverged {
            r.push(comparisons[i].0.clone());
            proof {
                assert(r@.map_values(|s: String| s@) =~= candidates_of(comparisons@.take(i + 1)));
            }
        }
        i = i + 1;
    }
    proof {
        assert(comparisons@.take(comparisons@.len() as int) =~= comparisons@);
    }
    r
}

/// The names, in order, of the repositories whose push succeeded.
pub open spec fn pushed_of(outcomes: Seq<(String, Result<(), PaletteError>)>) -> Seq<Seq<char>>
    decreases outcomes.len(),
{
    if outcomes.len() == 0 {
        Seq::empty()
    } else {
        let rest = pushed_of(outcomes.drop_last());
        if outcomes.last().1 is Ok {
            rest.push(outcomes.last().0@)
        } else {
            rest
        }
    }
}

/// The names, in order, of the repositories whose push failed, each with
/// its error.
pub open spec fn failed_of(outcomes: Seq<(String, Result<(), PaletteError>)>) -> Seq<
    (Seq<char>, PaletteError),
>
    decreases outcomes.len(),
{
    if outcomes.len() == 0 {
        Seq::empty()
    } else {
        let rest = failed_of(outcomes.drop_last());
        match outcomes.last().1 {
            Ok(_) => rest,
            Err(e) => rest.push((outcomes.last().0@, e)),
        }
    }
}

/// The outcome of a bulk push, every repository accounted for.
pub struct PushReport {
    /// The repositories that were pushed.
    pub pushed: Vec<String>,
    /// The repositories that were not, each with the reason.
    pub failed: Vec<(String, PaletteError)>,
}

/// Sorts the outcome of each push of a bulk push into those that succeeded
/// and those that failed, keeping their order, so that no failure goes
/// unreported.
pub fn summarize_pushes(outcomes: &Vec<(String, Result<(), PaletteError>)>) -> (r: PushReport)
    ensures
        r.pushed@.map_values(|s: String| s@) == pushed_of(outcomes@),
        r.failed@.map_values(|f: (String, PaletteError)| (f.0@, f.1)) == failed_of(outcomes@),
        r.pushed@.len() + r.failed@.len() == outcomes@.len(),
{
    let mut pushed: Vec<String> = Vec::new();
    let mut failed: Vec<(String, PaletteError)> = Vec::new();
    let mut i: usize = 0;
    while i < outcomes.len()
        invariant
            0 <= i <= outcomes@.len(),
            pushed@.map_values(|s: String| s@) == pushed_of(outcomes@.take(i as int)),
            failed@.map_values(|f: (String, PaletteError)| (f.0@, f.1)) == failed_of(
                outcomes@.take(i as int),
            ),
            pushed@.len() + failed@.len() == i,
        decreases outcomes@.len() - i,
    {
        proof {
            assert(outcomes@.take(i + 1).drop_last() =~= outcomes@.take(i as int));
        }
        match &outcomes[i].1 {
            Ok(_) => {
                pushed.push(outcomes[i].0.clone());
                proof {
                    assert(pushed@.map_values(|s: String| s@) =~= pushed_of(
                        outcomes@.take(i + 1),
                    ));
                }
            },
            Err(e) => {
                failed.push((outcomes[i].0.clone(), *e));
                proof {
                    assert(failed@.map_values(|f: (String, PaletteError)| (f.0@, f.1))
                        =~= failed_of(outcomes@.take(i + 1)));
                }
            },
        }
        i = i + 1;
    }
    proof {
        assert(outcomes@.take(outcomes@.len() as int) =~= outcomes@);
    }
    PushReport { pushed, failed }
}

} // verus!
