//! Actions: the work done when a transition fires.
//!
//! An action runs before the source vertex's exit hook and before the target vertex's entry hook.
//! Every action of one machine returns the same `Answer` type, which `process` hands back.
//! A vertex's data is handed to an action as `Option<V>`: the pseudo-states and sub-machine
//! vertices without hooks carry no data.
use vstd::prelude::*;

verus! {

/// The action of a transition between two distinct vertices.
pub trait Action<Source, Ctx, Event, Target, Answer> {
    fn trigger(&self, source: &mut Source, ctx: &mut Ctx, event: &Event, target: &mut Target) -> Answer;
}

/// The action of a loop, whose source and target are the same vertex. It is handed that vertex
/// once, so that no two mutable references to one vertex ever exist.
pub trait ActionLoop<Source, Ctx, Event, Answer> {
    fn trigger(&self, source: &mut Source, ctx: &mut Ctx, event: &Event) -> Answer;
}

/// A loop action that does nothing and answers `()`.
pub struct EmptyActionLoop;

impl EmptyActionLoop {
    pub fn new() -> (r: Self) {
        EmptyActionLoop
    }
}

impl<Source, Ctx, Event> ActionLoop<Source, Ctx, Event, ()> for EmptyActionLoop {
    fn trigger(&self, _source: &mut Source, _ctx: &mut Ctx, _event: &Event) -> (r: ())
        ensures
            *final(_source) == *old(_source),
            *final(_ctx) == *old(_ctx),
    {
    }
}

/// An action for a transition from any vertex that does nothing and answers `()`.
pub struct EmptyForallAction;

impl EmptyForallAction {
    pub fn new() -> (r: Self) {
        EmptyForallAction
    }
}

impl<Source, Ctx, Event, Target> Action<Source, Ctx, Event, Target, ()> for EmptyForallAction {
    fn trigger(&self, _source: &mut Source, _ctx: &mut Ctx, _event: &Event, _target: &mut Target) -> (r: ())
        ensures
            *final(_source) == *old(_source),
            *final(_ctx) == *old(_ctx),
            *final(_target) == *old(_target),
    {
    }
}

} // verus!
