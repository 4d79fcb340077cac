use vstd::prelude::*;

verus! {

/// What a non-blocking drain of the activity channel yields: the last
/// pending signal if any is pending, the previous flag otherwise.
pub open spec fn spec_collapse(signals: Seq<bool>, prev: bool) -> bool {
    if signals.len() == 0 {
        prev
    } else {
        signals.last()
    }
}

/// Collapses everything pending on the activity channel at one tick into a
/// single "activity occurred" flag, starting from the flag's previous value.
/// Sources only ever emit `true`, so any pending signal at all means activity.
pub fn collapse_signals(signals: &Vec<bool>, prev: bool) -> (r: bool)
    ensures
        r == spec_collapse(signals@, prev),
        (forall|i: int| 0 <= i < signals@.len() ==> signals@[i]) ==> r == (prev || signals@.len() > 0),
{
    let mut r = prev;
    let mut i: usize = 0;
    while i < signals.len()
        invariant
            0 <= i <= signals@.len(),
            r == spec_collapse(signals@.take(i as int), prev),
        decreases signals@.len() - i,
    {
        r = signals[i];
        i = i + 1;
        assert(signals@.take(i as int).last() == signals@[i - 1]);
    }
    assert(signals@.take(signals@.len() as int) =~= signals@);
    r
}

} // verus!
