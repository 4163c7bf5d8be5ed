//! Guards: predicates that an event must pass before a transition fires.
use std::marker::PhantomData;
use vstd::prelude::*;

verus! {

/// A precondition of a transition: `Ok(())` lets the transition fire, `Err(e)` stops it and
/// `process` reports `e`. A guard should have no side effects.
pub trait Guard<Input, GErr> {
    fn check(&self, input: &Input) -> Result<(), GErr>;
}

/// `guard` may answer `v` when checking `input`.
pub open spec fn guard_gives<Input, GErr, G: Guard<Input, GErr>>(guard: G, input: Input, v: Result<(), GErr>) -> bool {
    call_ensures(G::check, (&guard, &input), v)
}

/// The guard of a transition without conditions: it accepts every event.
pub struct EmptyGuard<Input, GErr> {
    phantom: PhantomData<(Input, GErr)>,
}

impl<Input, GErr> EmptyGuard<Input, GErr> {
    pub fn new() -> (r: Self) {
        EmptyGuard { phantom: PhantomData }
    }
}

impl<Input, GErr> Guard<Input, GErr> for EmptyGuard<Input, GErr> {
    fn check(&self, input: &Input) -> (r: Result<(), GErr>)
        ensures
            r == Result::<(), GErr>::Ok(()),
    {
        let accepted: Result<(), GErr> = Ok(());
        accepted
    }
}

/// A list of guards is their conjunction, checked from first to last; the first failure stops
/// the check and its error is the list's error. The empty list accepts every event.
impl<Input, GErr, G: Guard<Input, GErr>> Guard<Input, GErr> for Vec<G> {
    fn check(&self, input: &Input) -> (r: Result<(), GErr>)
        ensures
            self@.len() == 0 ==> r is Ok,
            r is Ok ==> forall|i: int| 0 <= i < self@.len() ==> #[trigger] guard_gives(self@[i], *input, Ok(())),
            r is Err ==> exists|i: int| {
                &&& 0 <= i < self@.len()
                &&& #[trigger] guard_gives(self@[i], *input, r)
                &&& forall|j: int| 0 <= j < i ==> #[trigger] guard_gives(self@[j], *input, Ok(()))
            },
    {
        let mut i: usize = 0;
        while i < self.len()
            invariant
                i <= self@.len(),
                forall|j: int| 0 <= j < i ==> #[trigger] guard_gives(self@[j], *input, Ok(())),
            decreases self@.len() - i,
        {
            let verdict = self[i].check(input);
            match verdict {
                Ok(u) => {
                    assert(verdict == Result::<(), GErr>::Ok(u));
                    assert(u == ());
                    assert(guard_gives(self@[i as int], *input, Ok(())));
                },
                Err(e) => {
                    assert(guard_gives(self@[i as int], *input, Err(e)));
                    return Err(e);
                },
            }
            i = i + 1;
        }
        Ok(())
    }
}

} // verus!
