//! Results returned by the dispatcher and its parts.
use vstd::prelude::*;

verus! {

/// The result of processing one event.
///
/// - `Handled`: a transition fired and its action returned the answer.
/// - `NoTransitions`: no transition applies to the current vertex and event kind.
/// - `GuardErr`: a transition applied, but its guard rejected the event.
pub enum ProcessResult<Answer, GErr> {
    Handled(Answer),
    NoTransitions,
    GuardErr(GErr),
}

impl<Answer, GErr> ProcessResult<Answer, GErr> {
    /// The answer of a handled event, `None` otherwise.
    pub fn ok(self) -> (r: Option<Answer>)
        ensures
            self is Handled ==> r == Some(self->Handled_0),
            !(self is Handled) ==> r is None,
    {
        match self {
            ProcessResult::Handled(h) => Some(h),
            ProcessResult::NoTransitions => None,
            ProcessResult::GuardErr(_) => None,
        }
    }

    /// The answer of a handled event; only a handled result may be unwrapped.
    pub fn unwrap(self) -> (r: Answer)
        requires
            self is Handled,
        ensures
            r == self->Handled_0,
    {
        match self {
            ProcessResult::Handled(a) => a,
            ProcessResult::NoTransitions => { proof { assert(false); } unreached() },
            ProcessResult::GuardErr(_) => { proof { assert(false); } unreached() },
        }
    }

    pub fn is_handled(&self) -> (r: bool)
        ensures
            r == (self is Handled),
    {
        match self {
            ProcessResult::Handled(_) => true,
            _ => false,
        }
    }
}

/// The result of firing a single transition record.
///
/// - `EventTypeNotSatisfy`: the record is for another event kind.
/// - `HandledAndProcessEnd`: the record fired and produced the answer.
/// - `NoTransitions`: the record applies to the event kind but not from this vertex.
/// - `GuardErr`: the record's guard rejected the event.
pub enum ProcessResultInner<Answer, GErr> {
    EventTypeNotSatisfy,
    HandledAndProcessEnd(Answer),
    NoTransitions,
    GuardErr(GErr),
}

impl<A, GErr> ProcessResultInner<A, GErr> {
    /// Applies `f` to the answer of a fired record and keeps every other result as it is.
    pub fn map<ANew, F: Fn(A) -> ANew>(self, f: F) -> (r: ProcessResultInner<ANew, GErr>)
        requires
            self is HandledAndProcessEnd ==> f.requires((self->HandledAndProcessEnd_0,)),
        ensures
            self is HandledAndProcessEnd ==> r is HandledAndProcessEnd && f.ensures(
                (self->HandledAndProcessEnd_0,),
                r->HandledAndProcessEnd_0,
            ),
            self is EventTypeNotSatisfy ==> r is EventTypeNotSatisfy,
            self is NoTransitions ==> r is NoTransitions,
            self is GuardErr ==> r == ProcessResultInner::<ANew, GErr>::GuardErr(self->GuardErr_0),
    {
        match self {
            ProcessResultInner::HandledAndProcessEnd(a) => ProcessResultInner::HandledAndProcessEnd(f(a)),
            ProcessResultInner::NoTransitions => ProcessResultInner::NoTransitions,
            ProcessResultInner::GuardErr(e) => ProcessResultInner::GuardErr(e),
            ProcessResultInner::EventTypeNotSatisfy => ProcessResultInner::EventTypeNotSatisfy,
        }
    }
}

/// What a record result means for the caller of `process`: a fired record is handled, a guard
/// error stays a guard error, and a record that does not apply means no transition.
pub open spec fn inner_to_result<A, GErr>(r: ProcessResultInner<A, GErr>) -> ProcessResult<A, GErr> {
    match r {
        ProcessResultInner::HandledAndProcessEnd(a) => ProcessResult::Handled(a),
        ProcessResultInner::GuardErr(e) => ProcessResult::GuardErr(e),
        ProcessResultInner::NoTransitions => ProcessResult::NoTransitions,
        ProcessResultInner::EventTypeNotSatisfy => ProcessResult::NoTransitions,
    }
}

impl<A, GErr> From<ProcessResultInner<A, GErr>> for ProcessResult<A, GErr> {
    fn from(r: ProcessResultInner<A, GErr>) -> (out: ProcessResult<A, GErr>) {
        match r {
            ProcessResultInner::HandledAndProcessEnd(a) => ProcessResult::Handled(a),
            ProcessResultInner::NoTransitions => ProcessResult::NoTransitions,
            ProcessResultInner::GuardErr(e) => ProcessResult::GuardErr(e),
            ProcessResultInner::EventTypeNotSatisfy => ProcessResult::NoTransitions,
        }
    }
}

impl<A, GErr> vstd::std_specs::convert::FromSpecImpl<ProcessResultInner<A, GErr>> for ProcessResult<A, GErr> {
    open spec fn obeys_from_spec() -> bool {
        true
    }

    open spec fn from_spec(v: ProcessResultInner<A, GErr>) -> ProcessResult<A, GErr> {
        inner_to_result(v)
    }
}

/// The answer of a vertex that wraps a nested machine, given the event first.
///
/// - `Handled`, `NoTransitions`, `GuardErr`: what the nested machine answered.
/// - `MustLeaveState`: the nested machine has terminated; the owner must leave the vertex.
pub enum ProcessResultSubstate<Answer, GErr> {
    Handled(Answer),
    NoTransitions,
    GuardErr(GErr),
    MustLeaveState,
}

} // verus!
