//! The escape-time loop: follow an orbit step by step, up to a budget, and
//! report the first step at which it left the bailout disc, or `0` when it
//! never did.
use vstd::prelude::*;

verus! {

/// `orbit` starts at `start` and each of its steps is one call of `step`:
/// from `orbit[i]` it went to `orbit[i + 1]`, and `left[i]` says whether the
/// new point lies outside the bailout disc.
pub open spec fn is_orbit<S, F: Fn(S) -> (S, bool)>(
    step: F,
    start: S,
    orbit: Seq<S>,
    left: Seq<bool>,
) -> bool {
    &&& orbit.len() == left.len() + 1
    &&& orbit[0] == start
    &&& forall|i: int|
        0 <= i < left.len() ==> step.ensures((orbit[i],), (#[trigger] orbit[i + 1], left[i]))
}

/// `r` is the escape time of an orbit whose steps left the disc as `left`
/// says, under a budget of `max_iterations` steps: the first step (counted
/// from `1`) that left it, or `0` when none of the `max_iterations` did.
pub open spec fn escape_time_of(left: Seq<bool>, max_iterations: u16, r: u16) -> bool {
    if r == 0 {
        &&& left.len() == max_iterations
        &&& forall|i: int| 0 <= i < left.len() ==> !left[i]
    } else {
        &&& left.len() == r
        &&& left[r - 1]
        &&& forall|i: int| 0 <= i < r - 1 ==> !left[i]
    }
}

/// Follows the orbit of `start` under `step` for at most `max_iterations`
/// steps. Returns the number of the first step whose point left the bailout
/// disc, counted from `1`, or `0` when the orbit stayed inside for the whole
/// budget. The result never exceeds the budget, and `0` never stands for an
/// escape.
pub fn escape_time<S, F: Fn(S) -> (S, bool)>(start: S, max_iterations: u16, step: F) -> (r: u16)
    requires
        forall|s: S| step.requires((s,)),
    ensures
        r <= max_iterations,
        exists|orbit: Seq<S>, left: Seq<bool>|
            is_orbit(step, start, orbit, left) && escape_time_of(left, max_iterations, r),
{
    let mut z = start;
    let mut done: u16 = 0;
    let ghost mut orbit: Seq<S> = seq![start];
    let ghost mut left: Seq<bool> = Seq::empty();
    while done < max_iterations
        invariant
            forall|s: S| step.requires((s,)),
            done <= max_iterations,
            left.len() == done,
            is_orbit(step, start, orbit, left),
            orbit.last() == z,
            forall|i: int| 0 <= i < left.len() ==> !left[i],
        decreases max_iterations - done,
    {
        let (next, outside) = step(z);
        proof {
            orbit = orbit.push(next);
            left = left.push(outside);
        }
        done = done + 1;
        if outside {
            assert(is_orbit(step, start, orbit, left) && escape_time_of(left, max_iterations, done));
            return done;
        }
        z = next;
    }
    assert(is_orbit(step, start, orbit, left) && escape_time_of(left, max_iterations, 0));
    0
}

} // verus!
