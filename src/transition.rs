//! Transition records and the firing of one record.
use crate::process_result::ProcessResultInner;
use crate::vertex::{EntryVertex, ExitVertex, Vertex, INITIAL, TERMINATION};
use crate::guard::guard_gives;
use crate::{Action, ActionLoop, Guard};
use vstd::prelude::*;

verus! {

/// One observable step of `process`, in the order in which it happened: a guard check, an action,
/// the exit hook of a vertex, the entry hook of a vertex.
pub enum Effect {
    Guard,
    Action,
    Exit(usize),
    Entry(usize),
}

/// The steps of an accepted transition from `source` to `target`.
pub open spec fn firing(source: usize, target: usize) -> Seq<Effect> {
    seq![Effect::Guard, Effect::Action, Effect::Exit(source), Effect::Entry(target)]
}

/// Only the data of `source` and `target` may differ between the two vertex stores.
pub open spec fn touches_only<V, C, E, G, A, L, Ans, GErr>(
    before: Seq<Vertex<V, C, E, G, A, L, Ans, GErr>>,
    after: Seq<Vertex<V, C, E, G, A, L, Ans, GErr>>,
    source: usize,
    target: usize,
) -> bool {
    &&& after.len() == before.len()
    &&& forall|k: int|
        0 <= k < before.len() && k != source && k != target ==> #[trigger] after[k] == before[k]
    &&& after[source as int].sub == before[source as int].sub
    &&& after[target as int].sub == before[target as int].sub
}

/// What firing a record from `source` to `target` does: on a guard error nothing but the guard
/// check happened; otherwise the guard, the action, the source's exit hook and the target's entry
/// hook ran in this order and only the two vertices' data changed.
pub open spec fn fired<V, C, E, G, A, L, Ans, GErr>(
    vertices0: Seq<Vertex<V, C, E, G, A, L, Ans, GErr>>,
    vertices1: Seq<Vertex<V, C, E, G, A, L, Ans, GErr>>,
    ctx0: C,
    ctx1: C,
    journal0: Seq<Effect>,
    journal1: Seq<Effect>,
    source: usize,
    target: usize,
    r: ProcessResultInner<Ans, GErr>,
) -> bool {
    match r {
        ProcessResultInner::GuardErr(_) => {
            &&& vertices1 == vertices0
            &&& ctx1 == ctx0
            &&& journal1 == journal0.push(Effect::Guard)
        },
        ProcessResultInner::HandledAndProcessEnd(_) => {
            &&& touches_only(vertices0, vertices1, source, target)
            &&& journal1 == journal0 + firing(source, target)
        },
        _ => false,
    }
}

/// The result that a guard's verdict calls for: an acceptance fires the record, a rejection is
/// passed on with the guard's error.
pub open spec fn follows_verdict<Ans, GErr>(v: Result<(), GErr>, r: ProcessResultInner<Ans, GErr>) -> bool {
    match v {
        Ok(_) => r is HandledAndProcessEnd,
        Err(e) => r == ProcessResultInner::<Ans, GErr>::GuardErr(e),
    }
}

/// `r` is the result that one verdict of `guard` on `event` calls for.
pub open spec fn decided_by<E, GErr, G: Guard<E, GErr>, Ans>(guard: G, event: E, r: ProcessResultInner<Ans, GErr>) -> bool {
    exists|v: Result<(), GErr>| #[trigger] guard_gives(guard, event, v) && follows_verdict(v, r)
}

/// Completes a transition from `source` to `target` whose guard gave `verdict`. A rejection is
/// passed on as `GuardErr` with the guard's error, and nothing changes. An acceptance runs the
/// action, the source's exit hook and the target's entry hook in this order, and the action's
/// answer is the result.
pub fn complete_transition<V, C, E, G, A, L, Ans, GErr>(
    verdict: Result<(), GErr>,
    vertices: &mut Vec<Vertex<V, C, E, G, A, L, Ans, GErr>>,
    ctx: &mut C,
    journal: &mut Ghost<Seq<Effect>>,
    source: usize,
    target: usize,
    action: &A,
    event: &E,
) -> (r: ProcessResultInner<Ans, GErr>) where
    V: EntryVertex + ExitVertex,
    A: Action<Option<V>, C, E, Option<V>, Ans>,

    requires
        source < old(vertices)@.len(),
        target < old(vertices)@.len(),
        source != target,
    ensures
        verdict is Err ==> {
            &&& r == ProcessResultInner::<Ans, GErr>::GuardErr(verdict->Err_0)
            &&& final(vertices)@ == old(vertices)@
            &&& *final(ctx) == *old(ctx)
            &&& final(journal)@ == old(journal)@
        },
        verdict is Ok ==> {
            &&& r is HandledAndProcessEnd
            &&& touches_only(old(vertices)@, final(vertices)@, source, target)
            &&& final(journal)@ == old(journal)@ + seq![Effect::Action, Effect::Exit(source), Effect::Entry(target)]
        },
        // The answer is what the action returned on the two vertices' data; then the source's
        // exit hook and the target's entry hook ran on what the action left.
        verdict is Ok ==> exists|s: &mut Option<V>, c: &mut C, t: &mut Option<V>, a: Ans| {
            &&& r == ProcessResultInner::<Ans, GErr>::HandledAndProcessEnd(a)
            &&& #[trigger] call_ensures(A::trigger, (action, s, c, event, t), a)
            &&& *s == old(vertices)@[source as int].data
            &&& *c == *old(ctx)
            &&& *t == old(vertices)@[target as int].data
            &&& *final(c) == *final(ctx)
            &&& (*final(s) is None ==> final(vertices)@[source as int].data is None)
            &&& (*final(s) is Some ==> exists|w: &mut V|
                #[trigger] call_ensures(V::exit, (w,), ()) && *w == (*final(s))->Some_0 && Some(*final(w)) == final(vertices)@[source as int].data)
            &&& (*final(t) is None ==> final(vertices)@[target as int].data is None)
            &&& (*final(t) is Some ==> exists|w: &mut V|
                #[trigger] call_ensures(V::entry, (w,), ()) && *w == (*final(t))->Some_0 && Some(*final(w)) == final(vertices)@[target as int].data)
        },
{
    match verdict {
        Err(e) => ProcessResultInner::GuardErr(e),
        Ok(()) => {
            let ghost vertices0 = vertices@;
            let ghost journal0 = journal@;
            let mut src: Option<V> = None;
            std::mem::swap(&mut src, &mut vertices[source].data);
            let answer = action.trigger(&mut src, ctx, event, &mut vertices[target].data);
            *journal = Ghost(journal@.push(Effect::Action));
            std::mem::swap(&mut src, &mut vertices[source].data);
            vertices[source].exit();
            *journal = Ghost(journal@.push(Effect::Exit(source)));
            vertices[target].entry();
            *journal = Ghost(journal@.push(Effect::Entry(target)));
            assert(journal@ =~= journal0 + seq![Effect::Action, Effect::Exit(source), Effect::Entry(target)]);
            assert(touches_only(vertices0, vertices@, source, target));
            ProcessResultInner::HandledAndProcessEnd(answer)
        },
    }
}

/// Completes a loop on `vertex` whose guard gave `verdict`: as `complete_transition`, with the
/// loop action handed the vertex once, then its exit and entry hooks run on that same vertex.
pub fn complete_loop<V, C, E, G, A, L, Ans, GErr>(
    verdict: Result<(), GErr>,
    vertices: &mut Vec<Vertex<V, C, E, G, A, L, Ans, GErr>>,
    ctx: &mut C,
    journal: &mut Ghost<Seq<Effect>>,
    vertex: usize,
    action: &L,
    event: &E,
) -> (r: ProcessResultInner<Ans, GErr>) where
    V: EntryVertex + ExitVertex,
    L: ActionLoop<Option<V>, C, E, Ans>,

    requires
        vertex < old(vertices)@.len(),
    ensures
        verdict is Err ==> {
            &&& r == ProcessResultInner::<Ans, GErr>::GuardErr(verdict->Err_0)
            &&& final(vertices)@ == old(vertices)@
            &&& *final(ctx) == *old(ctx)
            &&& final(journal)@ == old(journal)@
        },
        verdict is Ok ==> {
            &&& r is HandledAndProcessEnd
            &&& touches_only(old(vertices)@, final(vertices)@, vertex, vertex)
            &&& final(journal)@ == old(journal)@ + seq![Effect::Action, Effect::Exit(vertex), Effect::Entry(vertex)]
        },
        // The answer is what the loop action returned on the vertex's data; then the exit hook and
        // the entry hook ran, one after the other, on that same data.
        verdict is Ok ==> exists|d: &mut Option<V>, c: &mut C, a: Ans| {
            &&& r == ProcessResultInner::<Ans, GErr>::HandledAndProcessEnd(a)
            &&& #[trigger] call_ensures(L::trigger, (action, d, c, event), a)
            &&& *d == old(vertices)@[vertex as int].data
            &&& *c == *old(ctx)
            &&& *final(c) == *final(ctx)
            &&& (*final(d) is None ==> final(vertices)@[vertex as int].data is None)
            &&& (*final(d) is Some ==> exists|x: &mut V, n: &mut V| {
                &&& #[trigger] call_ensures(V::exit, (x,), ())
                &&& #[trigger] call_ensures(V::entry, (n,), ())
                &&& *x == (*final(d))->Some_0
                &&& *n == *final(x)
                &&& Some(*final(n)) == final(vertices)@[vertex as int].data
            })
        },
{
    match verdict {
        Err(e) => ProcessResultInner::GuardErr(e),
        Ok(()) => {
            let ghost vertices0 = vertices@;
            let ghost journal0 = journal@;
            let answer = action.trigger(&mut vertices[vertex].data, ctx, event);
            *journal = Ghost(journal@.push(Effect::Action));
            vertices[vertex].exit();
            *journal = Ghost(journal@.push(Effect::Exit(vertex)));
            vertices[vertex].entry();
            *journal = Ghost(journal@.push(Effect::Entry(vertex)));
            assert(journal@ =~= journal0 + seq![Effect::Action, Effect::Exit(vertex), Effect::Entry(vertex)]);
            assert(touches_only(vertices0, vertices@, vertex, vertex));
            ProcessResultInner::HandledAndProcessEnd(answer)
        },
    }
}

/// Checks the guard and completes the transition with its verdict.
fn fire_between<V, C, E, G, A, L, Ans, GErr>(
    vertices: &mut Vec<Vertex<V, C, E, G, A, L, Ans, GErr>>,
    ctx: &mut C,
    journal: &mut Ghost<Seq<Effect>>,
    source: usize,
    target: usize,
    guard: &G,
    action: &A,
    event: &E,
) -> (r: ProcessResultInner<Ans, GErr>) where
    V: EntryVertex + ExitVertex,
    G: Guard<E, GErr>,
    A: Action<Option<V>, C, E, Option<V>, Ans>,

    requires
        source < old(vertices)@.len(),
        target < old(vertices)@.len(),
        source != target,
    ensures
        fired(old(vertices)@, final(vertices)@, *old(ctx), *final(ctx), old(journal)@, final(journal)@, source, target, r),
        decided_by(*guard, *event, r),
        r is HandledAndProcessEnd ==> exists|s: &mut Option<V>, c: &mut C, t: &mut Option<V>, a: Ans| {
            &&& r == ProcessResultInner::<Ans, GErr>::HandledAndProcessEnd(a)
            &&& #[trigger] call_ensures(A::trigger, (action, s, c, event, t), a)
            &&& *s == old(vertices)@[source as int].data
            &&& *c == *old(ctx)
            &&& *t == old(vertices)@[target as int].data
            &&& *final(c) == *final(ctx)
            &&& (*final(s) is None ==> final(vertices)@[source as int].data is None)
            &&& (*final(s) is Some ==> exists|w: &mut V|
                #[trigger] call_ensures(V::exit, (w,), ()) && *w == (*final(s))->Some_0 && Some(*final(w)) == final(vertices)@[source as int].data)
            &&& (*final(t) is None ==> final(vertices)@[target as int].data is None)
            &&& (*final(t) is Some ==> exists|w: &mut V|
                #[trigger] call_ensures(V::entry, (w,), ()) && *w == (*final(t))->Some_0 && Some(*final(w)) == final(vertices)@[target as int].data)
        },
{
    let verdict = guard.check(event);
    assert(guard_gives(*guard, *event, verdict));
    *journal = Ghost(journal@.push(Effect::Guard));
    let r = complete_transition(verdict, vertices, ctx, journal, source, target, action, event);
    assert(r is HandledAndProcessEnd ==> journal@ =~= old(journal)@ + firing(source, target));
    r
}

/// A transition from `source` to a distinct `target` on events of kind `event`.
pub struct Transition<G, A> {
    pub source: usize,
    pub event: usize,
    pub target: usize,
    pub guard: G,
    pub action: A,
}

impl<G, A> Transition<G, A> {
    pub fn new(source: usize, event: usize, target: usize, action: A, guard: G) -> (r: Self)
        ensures
            r == (Transition { source, event, target, guard, action }),
    {
        Transition { source, event, target, guard, action }
    }

    /// Fires this transition: see `fired`.
    pub fn process<V, C, E, L, Ans, GErr>(
        &self,
        vertices: &mut Vec<Vertex<V, C, E, G, A, L, Ans, GErr>>,
        ctx: &mut C,
        journal: &mut Ghost<Seq<Effect>>,
        event: &E,
    ) -> (r: ProcessResultInner<Ans, GErr>) where
        V: EntryVertex + ExitVertex,
        G: Guard<E, GErr>,
        A: Action<Option<V>, C, E, Option<V>, Ans>,

        requires
            self.source < old(vertices)@.len(),
            self.target < old(vertices)@.len(),
            self.source != self.target,
        ensures
            fired(old(vertices)@, final(vertices)@, *old(ctx), *final(ctx), old(journal)@, final(journal)@, self.source, self.target, r),
            decided_by(self.guard, *event, r),
            r is HandledAndProcessEnd ==> exists|s: &mut Option<V>, c: &mut C, t: &mut Option<V>, a: Ans| {
                &&& r == ProcessResultInner::<Ans, GErr>::HandledAndProcessEnd(a)
                &&& #[trigger] call_ensures(A::trigger, (&self.action, s, c, event, t), a)
                &&& *s == old(vertices)@[self.source as int].data
                &&& *c == *old(ctx)
                &&& *t == old(vertices)@[self.target as int].data
                &&& *final(c) == *final(ctx)
                &&& (*final(s) is None ==> final(vertices)@[self.source as int].data is None)
                &&& (*final(s) is Some ==> exists|w: &mut V|
                    #[trigger] call_ensures(V::exit, (w,), ()) && *w == (*final(s))->Some_0 && Some(*final(w)) == final(vertices)@[self.source as int].data)
                &&& (*final(t) is None ==> final(vertices)@[self.target as int].data is None)
                &&& (*final(t) is Some ==> exists|w: &mut V|
                    #[trigger] call_ensures(V::entry, (w,), ()) && *w == (*final(t))->Some_0 && Some(*final(w)) == final(vertices)@[self.target as int].data)
            },
    {
        fire_between(vertices, ctx, journal, self.source, self.target, &self.guard, &self.action, event)
    }
}

/// A loop on `vertex`: its action sees the vertex once, then the vertex's exit hook and entry hook
/// run one after the other on the same slot.
pub struct LoopTransition<G, L> {
    pub vertex: usize,
    pub event: usize,
    pub guard: G,
    pub action: L,
}

impl<G, L> LoopTransition<G, L> {
    pub fn new(vertex: usize, event: usize, action: L, guard: G) -> (r: Self)
        ensures
            r == (LoopTransition { vertex, event, guard, action }),
    {
        LoopTransition { vertex, event, guard, action }
    }

    /// Fires this loop: see `fired`, with the vertex as both source and target.
    pub fn process<V, C, E, A, Ans, GErr>(
        &self,
        vertices: &mut Vec<Vertex<V, C, E, G, A, L, Ans, GErr>>,
        ctx: &mut C,
        journal: &mut Ghost<Seq<Effect>>,
        event: &E,
    ) -> (r: ProcessResultInner<Ans, GErr>) where
        V: EntryVertex + ExitVertex,
        G: Guard<E, GErr>,
        L: ActionLoop<Option<V>, C, E, Ans>,

        requires
            self.vertex < old(vertices)@.len(),
        ensures
            fired(old(vertices)@, final(vertices)@, *old(ctx), *final(ctx), old(journal)@, final(journal)@, self.vertex, self.vertex, r),
            decided_by(self.guard, *event, r),
            r is HandledAndProcessEnd ==> exists|d: &mut Option<V>, c: &mut C, a: Ans| {
                &&& r == ProcessResultInner::<Ans, GErr>::HandledAndProcessEnd(a)
                &&& #[trigger] call_ensures(L::trigger, (&self.action, d, c, event), a)
                &&& *d == old(vertices)@[self.vertex as int].data
                &&& *c == *old(ctx)
                &&& *final(c) == *final(ctx)
                &&& (*final(d) is None ==> final(vertices)@[self.vertex as int].data is None)
                &&& (*final(d) is Some ==> exists|x: &mut V, n: &mut V| {
                    &&& #[trigger] call_ensures(V::exit, (x,), ())
                    &&& #[trigger] call_ensures(V::entry, (n,), ())
                    &&& *x == (*final(d))->Some_0
                    &&& *n == *final(x)
                    &&& Some(*final(n)) == final(vertices)@[self.vertex as int].data
                })
            },
    {
        let verdict = self.guard.check(event);
        assert(guard_gives(self.guard, *event, verdict));
        *journal = Ghost(journal@.push(Effect::Guard));
        let r = complete_loop(verdict, vertices, ctx, journal, self.vertex, &self.action, event);
        assert(r is HandledAndProcessEnd ==> journal@ =~= old(journal)@ + firing(self.vertex, self.vertex));
        r
    }
}

/// A transition on events of kind `event` from every vertex but `target` itself to `target`.
pub struct ForallTransition<G, A> {
    pub event: usize,
    pub target: usize,
    pub guard: G,
    pub action: A,
}

impl<G, A> ForallTransition<G, A> {
    pub fn new(event: usize, target: usize, action: A, guard: G) -> (r: Self)
        ensures
            r == (ForallTransition { event, target, guard, action }),
    {
        ForallTransition { event, target, guard, action }
    }

    /// Fires this transition from `source` for an event of kind `kind`. For another kind of event
    /// the result is `EventTypeNotSatisfy`; from its own target it does not apply and the result
    /// is `NoTransitions`. In both cases nothing changes.
    pub fn process<V, C, E, L, Ans, GErr>(
        &self,
        kind: usize,
        source: usize,
        vertices: &mut Vec<Vertex<V, C, E, G, A, L, Ans, GErr>>,
        ctx: &mut C,
        journal: &mut Ghost<Seq<Effect>>,
        event: &E,
    ) -> (r: ProcessResultInner<Ans, GErr>) where
        V: EntryVertex + ExitVertex,
        G: Guard<E, GErr>,
        A: Action<Option<V>, C, E, Option<V>, Ans>,

        requires
            source < old(vertices)@.len(),
            self.target < old(vertices)@.len(),
        ensures
            kind != self.event ==> r is EventTypeNotSatisfy,
            kind == self.event && source == self.target ==> r is NoTransitions,
            kind != self.event || source == self.target ==> {
                &&& final(vertices)@ == old(vertices)@
                &&& *final(ctx) == *old(ctx)
                &&& final(journal)@ == old(journal)@
            },
            kind == self.event && source != self.target ==> fired(old(vertices)@, final(vertices)@, *old(ctx), *final(ctx), old(journal)@, final(journal)@, source, self.target, r),
            kind == self.event && source != self.target ==> decided_by(self.guard, *event, r),
            kind == self.event && source != self.target && r is HandledAndProcessEnd ==> exists|s: &mut Option<V>, c: &mut C, t: &mut Option<V>, a: Ans| {
                &&& r == ProcessResultInner::<Ans, GErr>::HandledAndProcessEnd(a)
                &&& #[trigger] call_ensures(A::trigger, (&self.action, s, c, event, t), a)
                &&& *s == old(vertices)@[source as int].data
                &&& *c == *old(ctx)
                &&& *t == old(vertices)@[self.target as int].data
                &&& *final(c) == *final(ctx)
                &&& (*final(s) is None ==> final(vertices)@[source as int].data is None)
                &&& (*final(s) is Some ==> exists|w: &mut V|
                    #[trigger] call_ensures(V::exit, (w,), ()) && *w == (*final(s))->Some_0 && Some(*final(w)) == final(vertices)@[source as int].data)
                &&& (*final(t) is None ==> final(vertices)@[self.target as int].data is None)
                &&& (*final(t) is Some ==> exists|w: &mut V|
                    #[trigger] call_ensures(V::entry, (w,), ()) && *w == (*final(t))->Some_0 && Some(*final(w)) == final(vertices)@[self.target as int].data)
            },
    {
        if kind != self.event {
            return ProcessResultInner::EventTypeNotSatisfy;
        }
        if source == self.target {
            return ProcessResultInner::NoTransitions;
        }
        fire_between(vertices, ctx, journal, source, self.target, &self.guard, &self.action, event)
    }
}

/// A record of the per-vertex transition table: a transition to another vertex, or a loop.
pub enum ITransition<G, A, L> {
    Normal(Transition<G, A>),
    Loop(LoopTransition<G, L>),
}

impl<G, A, L> ITransition<G, A, L> {
    pub open spec fn event(&self) -> usize {
        match self {
            ITransition::Normal(t) => t.event,
            ITransition::Loop(l) => l.event,
        }
    }

    pub open spec fn guard(&self) -> G {
        match self {
            ITransition::Normal(t) => t.guard,
            ITransition::Loop(l) => l.guard,
        }
    }

    pub open spec fn source(&self) -> usize {
        match self {
            ITransition::Normal(t) => t.source,
            ITransition::Loop(l) => l.vertex,
        }
    }

    pub open spec fn target(&self) -> usize {
        match self {
            ITransition::Normal(t) => t.target,
            ITransition::Loop(l) => l.vertex,
        }
    }

    /// The record may stand in the row of vertex `s` of a machine with `n` vertices: it leaves
    /// `s`, which is not the terminal pseudo-state, and enters a vertex other than the initial
    /// pseudo-state; only a loop has equal source and target.
    pub open spec fn valid_from(&self, s: int, n: int) -> bool {
        &&& self.source() == s
        &&& self.target() < n
        &&& s != TERMINATION
        &&& self.target() != INITIAL
        &&& (self is Normal ==> self.source() != self.target())
    }

    pub fn event_kind(&self) -> (r: usize)
        ensures
            r == self.event(),
    {
        match self {
            ITransition::Normal(t) => t.event,
            ITransition::Loop(l) => l.event,
        }
    }

    pub fn target_vertex(&self) -> (r: usize)
        ensures
            r == self.target(),
    {
        match self {
            ITransition::Normal(t) => t.target,
            ITransition::Loop(l) => l.vertex,
        }
    }

    /// Fires this record for an event of kind `kind`: see `fired`. For another kind of event the
    /// result is `EventTypeNotSatisfy` and nothing changes.
    pub fn process<V, C, E, Ans, GErr>(
        &self,
        kind: usize,
        vertices: &mut Vec<Vertex<V, C, E, G, A, L, Ans, GErr>>,
        ctx: &mut C,
        journal: &mut Ghost<Seq<Effect>>,
        event: &E,
    ) -> (r: ProcessResultInner<Ans, GErr>) where
        V: EntryVertex + ExitVertex,
        G: Guard<E, GErr>,
        A: Action<Option<V>, C, E, Option<V>, Ans>,
        L: ActionLoop<Option<V>, C, E, Ans>,

        requires
            self.valid_from(self.source() as int, old(vertices)@.len() as int),
            self.source() < old(vertices)@.len(),
        ensures
            kind != self.event() ==> {
                &&& r is EventTypeNotSatisfy
                &&& final(vertices)@ == old(vertices)@
                &&& *final(ctx) == *old(ctx)
                &&& final(journal)@ == old(journal)@
            },
            kind == self.event() ==> fired(old(vertices)@, final(vertices)@, *old(ctx), *final(ctx), old(journal)@, final(journal)@, self.source(), self.target(), r),
            kind == self.event() ==> decided_by(self.guard(), *event, r),
    {
        if kind != self.event_kind() {
            return ProcessResultInner::EventTypeNotSatisfy;
        }
        match self {
            ITransition::Normal(t) => t.process(vertices, ctx, journal, event),
            ITransition::Loop(l) => l.process(vertices, ctx, journal, event),
        }
    }
}

} // verus!
