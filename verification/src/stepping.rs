//! The loop of accepted steps towards a target time, under a step budget.

use vstd::prelude::*;

verus! {

/// How an integration towards a target ended, with the last state reached.
#[derive(Debug)]
pub enum Outcome<S> {
    /// The state is at the target.
    Reached(S),
    /// The step budget was spent before the target was reached.
    Exhausted(S),
    /// No further step could be taken from the state.
    Stalled(S),
}

impl<S> Outcome<S> {
    /// The last state of the integration.
    pub open spec fn spec_state(self) -> S {
        match self {
            Outcome::Reached(state) => state,
            Outcome::Exhausted(state) => state,
            Outcome::Stalled(state) => state,
        }
    }

    /// The last state of the integration.
    pub fn state(&self) -> (last: &S)
        ensures
            *last == self.spec_state(),
    {
        match self {
            Outcome::Reached(state) => state,
            Outcome::Exhausted(state) => state,
            Outcome::Stalled(state) => state,
        }
    }

    /// The state at the target, if the integration got there.
    pub fn reached(self) -> (at_target: Option<S>)
        ensures
            at_target is Some <==> self is Reached,
            at_target matches Some(state) ==> state == self.spec_state(),
    {
        match self {
            Outcome::Reached(state) => Some(state),
            _ => None,
        }
    }
}

/// `path` is a run of accepted steps: no state but the last is at the
/// target, and each state but the first is a result of `step` on the one
/// before it.
pub open spec fn stepped<S, Done: Fn(&S) -> bool, Step: Fn(&S) -> Option<S>>(
    done: Done,
    step: Step,
    path: Seq<S>,
) -> bool {
    &&& path.len() >= 1
    &&& forall|i: int|
        #![trigger path[i]]
        0 <= i < path.len() - 1 ==> {
            &&& call_ensures(done, (&path[i],), false)
            &&& call_ensures(step, (&path[i],), Some(path[i + 1]))
        }
}

/// Whether `out` is a correct end of the run `path` under a budget of
/// `max_steps` steps.
pub open spec fn ended<S, Done: Fn(&S) -> bool, Step: Fn(&S) -> Option<S>>(
    done: Done,
    step: Step,
    path: Seq<S>,
    max_steps: int,
    out: Outcome<S>,
) -> bool {
    &&& stepped(done, step, path)
    &&& path.last() == out.spec_state()
    &&& path.len() - 1 <= max_steps
    &&& match out {
        Outcome::Reached(state) => call_ensures(done, (&state,), true),
        Outcome::Exhausted(state) => call_ensures(done, (&state,), false) && path.len() - 1
            == max_steps,
        Outcome::Stalled(state) => call_ensures(done, (&state,), false) && path.len() - 1
            < max_steps && call_ensures(step, (&state,), None::<S>),
    }
}

/// Takes steps from `start` until the target is reached, no step can be
/// taken, or `max_steps` steps have been accepted, whichever comes first.
///
/// `done(state)` tells whether `state` is at the target; it is asked before
/// every step, so a start at the target takes none. `step(state)` advances by
/// one accepted step, or returns `None` when it cannot.
pub fn integrate<S, Done: Fn(&S) -> bool, Step: Fn(&S) -> Option<S>>(
    start: S,
    done: Done,
    step: Step,
    max_steps: usize,
) -> (out: Outcome<S>)
    requires
        forall|state: S| call_requires(done, (&state,)),
        forall|state: S| call_requires(step, (&state,)),
    ensures
        exists|path: Seq<S>| #[trigger]
            ended(done, step, path, max_steps as int, out) && path[0] == start,
{
    let mut current = start;
    let mut taken: usize = 0;
    let ghost mut path: Seq<S> = seq![start];
    loop
        invariant
            forall|state: S| call_requires(done, (&state,)),
            forall|state: S| call_requires(step, (&state,)),
            stepped(done, step, path),
            path[0] == start,
            path.last() == current,
            path.len() == taken + 1,
            taken <= max_steps,
        decreases max_steps - taken,
    {
        if done(&current) {
            let out = Outcome::Reached(current);
            assert(ended(done, step, path, max_steps as int, out));
            return out;
        }
        if taken == max_steps {
            let out = Outcome::Exhausted(current);
            assert(ended(done, step, path, max_steps as int, out));
            return out;
        }
        match step(&current) {
            None => {
                let out = Outcome::Stalled(current);
                assert(ended(done, step, path, max_steps as int, out));
                return out;
            },
            Some(next) => {
                proof {
                    let longer = path.push(next);
                    assert forall|i: int|
                        #![trigger longer[i]]
                        0 <= i < longer.len() - 1 implies {
                        &&& call_ensures(done, (&longer[i],), false)
                        &&& call_ensures(step, (&longer[i],), Some(longer[i + 1]))
                    } by {
                        if i < path.len() - 1 {
                            assert(longer[i] == path[i]);
                            assert(longer[i + 1] == path[i + 1]);
                        } else {
                            assert(longer[i] == current);
                            assert(longer[i + 1] == next);
                        }
                    }
                    path = longer;
                }
                current = next;
                taken += 1;
            },
        }
    }
}

} // verus!
