//! Vertices: the slots of a machine, their hooks, and the pseudo-states.
use crate::process_result::{ProcessResult, ProcessResultSubstate};
use crate::sm::StateMachine;
use crate::{Action, ActionLoop, Guard};
use vstd::prelude::*;

verus! {

/// The vertex where every machine starts. It can be left but never entered.
pub const INITIAL: usize = 0;

/// The vertex where a machine ends. It can be entered but never left; a machine nested in a
/// vertex that reaches it hands control back to its owner.
pub const TERMINATION: usize = 1;

/// The hook run when a transition enters a vertex, after the action and the source's exit hook.
pub trait EntryVertex {
    fn entry(&mut self) {
    }
}

/// The hook run when a transition leaves a vertex, right after the action.
pub trait ExitVertex {
    fn exit(&mut self) {
    }
}

/// Vertex data whose hooks do nothing.
pub struct EmptyVertex;

impl EmptyVertex {
    pub fn new() -> (r: Self) {
        EmptyVertex
    }
}

impl EntryVertex for EmptyVertex {
}

impl ExitVertex for EmptyVertex {
}

/// The pseudo-state at `INITIAL`: it has an exit hook only.
pub struct InitialPseudoState;

impl ExitVertex for InitialPseudoState {
}

/// The pseudo-state at `TERMINATION`: it has an entry hook only.
pub struct TerminationPseudoState;

impl EntryVertex for TerminationPseudoState {
}

/// One slot of a machine's vertex store.
///
/// `data` is what actions and hooks see: `None` for the pseudo-states and for a sub-machine
/// vertex without hooks. `sub` holds the nested machine of a sub-machine vertex. A slot is
/// allocated once and mutated in place: its data is kept while other vertices are active.
pub struct Vertex<V, C, E, G, A, L, Ans, GErr> {
    pub data: Option<V>,
    pub sub: Option<StateMachine<V, C, E, G, A, L, Ans, GErr>>,
}

impl<V, C, E, G, A, L, Ans, GErr> Vertex<V, C, E, G, A, L, Ans, GErr> {
    /// The machine nested in this vertex.
    pub open spec fn nested(&self) -> StateMachine<V, C, E, G, A, L, Ans, GErr>
        recommends
            self.sub is Some,
    {
        self.sub->0
    }

    /// This vertex holds a nested machine that has not yet terminated.
    pub open spec fn absorbs(&self) -> bool {
        self.sub is Some && self.nested().current != TERMINATION
    }
}

impl<V: EntryVertex, C, E, G, A, L, Ans, GErr> EntryVertex for Vertex<V, C, E, G, A, L, Ans, GErr> {
    fn entry(&mut self)
        ensures
            final(self).sub == old(self).sub,
            old(self).data is None ==> final(self).data is None,
            old(self).data is Some ==> final(self).data is Some && exists|w: &mut V|
                #[trigger] call_ensures(V::entry, (w,), ()) && *w == old(self).data->Some_0 && *final(w) == final(self).data->Some_0,
    {
        match &mut self.data {
            Some(v) => v.entry(),
            None => {},
        }
    }
}

impl<V: ExitVertex, C, E, G, A, L, Ans, GErr> ExitVertex for Vertex<V, C, E, G, A, L, Ans, GErr> {
    fn exit(&mut self)
        ensures
            final(self).sub == old(self).sub,
            old(self).data is None ==> final(self).data is None,
            old(self).data is Some ==> final(self).data is Some && exists|w: &mut V|
                #[trigger] call_ensures(V::exit, (w,), ()) && *w == old(self).data->Some_0 && *final(w) == final(self).data->Some_0,
    {
        match &mut self.data {
            Some(v) => v.exit(),
            None => {},
        }
    }
}

/// What a vertex answers when it is given an event first: the nested machine's result while it
/// absorbs events, and `MustLeaveState` otherwise.
pub open spec fn lift_result<Ans, GErr>(r: ProcessResult<Ans, GErr>) -> ProcessResultSubstate<Ans, GErr> {
    match r {
        ProcessResult::Handled(a) => ProcessResultSubstate::Handled(a),
        ProcessResult::NoTransitions => ProcessResultSubstate::NoTransitions,
        ProcessResult::GuardErr(e) => ProcessResultSubstate::GuardErr(e),
    }
}

impl<V, C, E, G, A, L, Ans, GErr> Vertex<V, C, E, G, A, L, Ans, GErr> where
    V: EntryVertex + ExitVertex,
    G: Guard<E, GErr>,
    A: Action<Option<V>, C, E, Option<V>, Ans>,
    L: ActionLoop<Option<V>, C, E, Ans>,
 {
    /// Offers an event to this vertex before its owner looks at its own transitions.
    ///
    /// A vertex without a nested machine, or whose nested machine has terminated, answers
    /// `MustLeaveState` and is unchanged. Otherwise the nested machine processes the event and its
    /// result is passed on.
    pub fn process_substate(&mut self, kind: usize, event: &E) -> (r: ProcessResultSubstate<Ans, GErr>)
        requires
            old(self).sub is Some ==> old(self).nested().wf(),
        ensures
            !old(self).absorbs() ==> r is MustLeaveState && *final(self) == *old(self),
            old(self).absorbs() ==> {
                &&& final(self).data == old(self).data
                &&& final(self).sub is Some
                &&& final(self).nested().wf()
                &&& final(self).nested().depth == old(self).nested().depth
                &&& exists|pr: ProcessResult<Ans, GErr>|
                    r == lift_result(pr) && #[trigger] old(self).nested().step(kind, *event, final(self).nested(), pr)
            },
        decreases old(self).nested().depth@, 2nat,
    {
        match &mut self.sub {
            None => ProcessResultSubstate::MustLeaveState,
            Some(m) => {
                if m.current == TERMINATION {
                    ProcessResultSubstate::MustLeaveState
                } else {
                    let pr = m.process(kind, event);
                    match pr {
                        ProcessResult::Handled(a) => ProcessResultSubstate::Handled(a),
                        ProcessResult::NoTransitions => ProcessResultSubstate::NoTransitions,
                        ProcessResult::GuardErr(e) => ProcessResultSubstate::GuardErr(e),
                    }
                }
            },
        }
    }
}

/// A vertex that wraps a complete nested machine, with its own entry and exit hooks.
///
/// While it is active and its nested machine has not terminated, every event goes to the nested
/// machine; once the nested machine has terminated, the owner handles events with its own
/// transitions out of this vertex.
pub struct StateMachineVertex<V, C, E, G, A, L, Ans, GErr> {
    pub sm: StateMachine<V, C, E, G, A, L, Ans, GErr>,
    pub hooks: Option<V>,
}

impl<V, C, E, G, A, L, Ans, GErr> StateMachineVertex<V, C, E, G, A, L, Ans, GErr> {
    /// A sub-machine vertex whose entry and exit hooks are those of `hooks`.
    pub fn new(sm: StateMachine<V, C, E, G, A, L, Ans, GErr>, hooks: V) -> (r: Self)
        ensures
            r.sm == sm,
            r.hooks == Some(hooks),
    {
        StateMachineVertex { sm, hooks: Some(hooks) }
    }

    /// A sub-machine vertex without entry and exit hooks.
    pub fn empty(sm: StateMachine<V, C, E, G, A, L, Ans, GErr>) -> (r: Self)
        ensures
            r.sm == sm,
            r.hooks is None,
    {
        StateMachineVertex { sm, hooks: None }
    }
}

} // verus!
