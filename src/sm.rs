//! The state machine: its vertex store, transition tables, builders and the dispatcher.
use crate::hmap::HMap;
use crate::process_event::ProcessEvent;
use crate::process_result::{ProcessResult, ProcessResultInner, ProcessResultSubstate};
use crate::transition::{firing, touches_only, Effect, ForallTransition, ITransition, LoopTransition, Transition};
use crate::vertex::{lift_result, EntryVertex, ExitVertex, StateMachineVertex, Vertex, INITIAL, TERMINATION};
use crate::guard::guard_gives;
use crate::{Action, ActionLoop, Guard};
use std::marker::PhantomData;
use vstd::prelude::*;

verus! {

/// Where an event goes from the current vertex.
pub enum Route {
    /// To the machine nested in the current vertex.
    Substate,
    /// To the record at this index of the current vertex's row.
    Record(usize),
    /// To the transition from any vertex at this index.
    Forall(usize),
    /// Nowhere: the result is `NoTransitions`.
    Unmatched,
}

/// A machine with vertex data `V`, context `C`, events `E`, guards `G`, actions `A`, loop actions
/// `L`, answers `Ans` and guard errors `GErr`.
///
/// Vertices are numbered from 0: `INITIAL` and `TERMINATION` come first, then each added vertex
/// in the order of addition. Events are dispatched by their kind, a number chosen by the caller.
pub struct StateMachine<V, C, E, G, A, L, Ans, GErr> {
    pub current: usize,
    pub state: C,
    pub vertices: Vec<Vertex<V, C, E, G, A, L, Ans, GErr>>,
    pub transitions: HMap<G, A, L>,
    pub forall_transitions: Vec<ForallTransition<G, A>>,
    /// The effects of every `process` call so far, in order.
    pub journal: Ghost<Seq<Effect>>,
    /// A bound on the nesting of machines in this one.
    pub depth: Ghost<nat>,
    pub phantom: PhantomData<(E, Ans, GErr)>,
}

/// An interface for checking the current vertex of a machine.
pub trait CurrentStateIs {
    /// Whether `vertex` is the current vertex.
    fn is(&self, vertex: usize) -> bool;
}

impl<V, C, E, G, A, L, Ans, GErr> CurrentStateIs for StateMachine<V, C, E, G, A, L, Ans, GErr> {
    fn is(&self, vertex: usize) -> (r: bool)
        ensures
            r == (self.current == vertex),
    {
        self.current == vertex
    }
}

impl<V, C, E, G, A, L, Ans, GErr> StateMachine<V, C, E, G, A, L, Ans, GErr> {
    pub open spec fn row(&self, s: int) -> Seq<ITransition<G, A, L>> {
        self.transitions.table()[s]
    }

    /// The machine is well formed: the pseudo-states come first and hold no nested machine, the current vertex exists, each
    /// vertex has a row of valid records, every transition from any vertex targets an existing
    /// vertex other than `INITIAL`, and every nested machine is well formed and less deep.
    pub open spec fn wf(&self) -> bool
        decreases self.depth@,
    {
        let n = self.vertices@.len();
        &&& 2 <= n
        &&& self.vertices@[INITIAL as int].sub is None
        &&& self.vertices@[TERMINATION as int].sub is None
        &&& self.current < n
        &&& self.transitions.table().len() == n
        &&& forall|s: int, i: int|
            0 <= s < n && 0 <= i < self.row(s).len() ==> (#[trigger] self.row(s)[i]).valid_from(s, n as int)
        &&& forall|j: int|
            0 <= j < self.forall_transitions@.len() ==> {
                &&& (#[trigger] self.forall_transitions@[j]).target < n
                &&& self.forall_transitions@[j].target != INITIAL
            }
        &&& forall|i: int|
            0 <= i < n && (#[trigger] self.vertices@[i]).sub is Some ==> {
                &&& self.vertices@[i].nested().depth@ < self.depth@
                &&& self.vertices@[i].nested().wf()
            }
    }

    /// The current vertex is a sub-machine vertex whose nested machine has not terminated.
    pub open spec fn delegates(&self) -> bool {
        self.vertices@[self.current as int].absorbs()
    }

    /// `i` is the first record of the current vertex's row for events of `kind`.
    pub open spec fn is_first_record(&self, kind: usize, i: int) -> bool {
        let row = self.row(self.current as int);
        &&& 0 <= i < row.len()
        &&& row[i].event() == kind
        &&& forall|j: int| 0 <= j < i ==> (#[trigger] row[j]).event() != kind
    }

    /// The transition from any vertex at `j` applies to events of `kind` from the current vertex.
    pub open spec fn forall_applies(&self, kind: usize, j: int) -> bool {
        &&& self.forall_transitions@[j].event == kind
        &&& self.forall_transitions@[j].target != self.current
    }

    /// `j` is the first transition from any vertex that applies to events of `kind`.
    pub open spec fn is_first_forall(&self, kind: usize, j: int) -> bool {
        &&& 0 <= j < self.forall_transitions@.len()
        &&& self.forall_applies(kind, j)
        &&& forall|k: int| 0 <= k < j ==> !#[trigger] self.forall_applies(kind, k)
    }

    /// Where an event of `kind` goes: to the nested machine while it absorbs events; nowhere from
    /// `TERMINATION`; else to the first record of the current row for that kind; else to the
    /// first transition from any vertex for that kind whose target is not the current vertex;
    /// else nowhere.
    pub open spec fn route(&self, kind: usize) -> Route {
        if self.delegates() {
            Route::Substate
        } else if self.current == TERMINATION {
            Route::Unmatched
        } else if exists|i: usize| self.is_first_record(kind, i as int) {
            Route::Record(choose|i: usize| self.is_first_record(kind, i as int))
        } else if exists|j: usize| self.is_first_forall(kind, j as int) {
            Route::Forall(choose|j: usize| self.is_first_forall(kind, j as int))
        } else {
            Route::Unmatched
        }
    }

    /// `next` and `self` agree on everything a call of `process` never changes.
    pub open spec fn same_tables(&self, next: Self) -> bool {
        &&& next.transitions == self.transitions
        &&& next.forall_transitions == self.forall_transitions
        &&& next.depth == self.depth
    }

    /// Whether the machine has reached `TERMINATION`.
    pub fn is_terminated(&self) -> (r: bool)
        ensures
            r == (self.current == TERMINATION),
    {
        self.current == TERMINATION
    }
}


/// The result that a guard's verdict calls for, as `process` reports it.
pub open spec fn verdict_result<Ans, GErr>(v: Result<(), GErr>, r: ProcessResult<Ans, GErr>) -> bool {
    match v {
        Ok(_) => r is Handled,
        Err(e) => r == ProcessResult::<Ans, GErr>::GuardErr(e),
    }
}

/// `r` is the result that one verdict of `guard` on `event` calls for.
pub open spec fn decides<E, GErr, G: Guard<E, GErr>, Ans>(guard: G, event: E, r: ProcessResult<Ans, GErr>) -> bool {
    exists|v: Result<(), GErr>| #[trigger] guard_gives(guard, event, v) && verdict_result(v, r)
}

impl<V, C, E, G, A, L, Ans, GErr> StateMachine<V, C, E, G, A, L, Ans, GErr> where G: Guard<E, GErr> {
    /// The outcome of a transition from `source` to `target` with guard `guard` that was tried on
    /// `event`: the result is `GuardErr(e)` for a verdict `Err(e)` of the guard and `Handled` for a
    /// verdict `Ok`. On a guard error only
    /// the guard check happened; on success the guard, action, exit and entry steps happened in
    /// this order, only the data of the two vertices and the context may have changed, and
    /// `target` is current.
    pub open spec fn fired_to(&self, next: Self, guard: G, event: E, source: usize, target: usize, r: ProcessResult<Ans, GErr>) -> bool {
        &&& self.same_tables(next)
        &&& decides(guard, event, r)
        &&& match r {
            ProcessResult::Handled(_) => {
                &&& next.current == target
                &&& touches_only(self.vertices@, next.vertices@, source, target)
                &&& next.journal@ == self.journal@ + firing(source, target)
            },
            ProcessResult::GuardErr(_) => {
                &&& next.current == self.current
                &&& next.vertices@ == self.vertices@
                &&& next.state == self.state
                &&& next.journal@ == self.journal@.push(Effect::Guard)
            },
            ProcessResult::NoTransitions => false,
        }
    }

    /// One call of `process` with `event` of kind `kind` turns `self` into `next` and returns `r`.
    pub open spec fn step(&self, kind: usize, event: E, next: Self, r: ProcessResult<Ans, GErr>) -> bool
        decreases self.depth@,
    {
        let cur = self.current as int;
        match self.route(kind) {
            Route::Unmatched => r is NoTransitions && next == *self,
            Route::Substate => {
                let v0 = self.vertices@[cur];
                let v1 = next.vertices@[cur];
                &&& self.same_tables(next)
                &&& next.current == self.current
                &&& next.state == self.state
                &&& next.journal == self.journal
                &&& next.vertices@ == self.vertices@.update(cur, v1)
                &&& v1.data == v0.data
                &&& v1.sub is Some
                &&& (v0.nested().depth@ < self.depth@ ==> v0.nested().step(kind, event, v1.nested(), r))
            },
            Route::Record(i) => {
                let rec = self.row(cur)[i as int];
                self.fired_to(next, rec.guard(), event, rec.source(), rec.target(), r)
            },
            Route::Forall(j) => {
                let f = self.forall_transitions@[j as int];
                self.fired_to(next, f.guard, event, self.current, f.target, r)
            },
        }
    }

}

impl<V, C, E, G, A, L, Ans, GErr> StateMachine<V, C, E, G, A, L, Ans, GErr> {
    /// An empty machine with context `state`: only the two pseudo-states, no transitions, and
    /// `INITIAL` current.
    pub fn new(state: C) -> (r: Self)
        ensures
            r.wf(),
            r.current == INITIAL,
            r.state == state,
            r.vertices@.len() == 2,
            r.vertices@[INITIAL as int].data is None && r.vertices@[INITIAL as int].sub is None,
            r.vertices@[TERMINATION as int].data is None && r.vertices@[TERMINATION as int].sub is None,
            r.transitions.table() == seq![Seq::<ITransition<G, A, L>>::empty(), Seq::empty()],
            r.forall_transitions@.len() == 0,
            r.journal@.len() == 0,
    {
        let mut vertices: Vec<Vertex<V, C, E, G, A, L, Ans, GErr>> = Vec::new();
        vertices.push(Vertex { data: None, sub: None });
        vertices.push(Vertex { data: None, sub: None });
        let transitions = HMap::new().add().add();
        assert(transitions.table() =~= seq![Seq::<ITransition<G, A, L>>::empty(), Seq::empty()]);
        StateMachine {
            current: INITIAL,
            state,
            vertices,
            transitions,
            forall_transitions: Vec::new(),
            journal: Ghost(Seq::empty()),
            depth: Ghost(0),
            phantom: PhantomData,
        }
    }

    /// Adds a vertex with data `vertex`; its number is the number of vertices before the call.
    pub fn add_vertex(self, vertex: V) -> (r: Self)
        requires
            self.wf(),
        ensures
            r.wf(),
            r.vertices@ == self.vertices@.push(Vertex { data: Some(vertex), sub: None }),
            r.transitions.table() == self.transitions.table().push(Seq::empty()),
            r.current == self.current,
            r.state == self.state,
            r.forall_transitions == self.forall_transitions,
            r.journal == self.journal,
    {
        let mut m = self;
        m.vertices.push(Vertex { data: Some(vertex), sub: None });
        m.transitions = m.transitions.add();
        proof {
            assert(m.vertices@.drop_last() =~= self.vertices@);
            m.lemma_wf_push_vertex(self);
        }
        m
    }

    /// Adds a vertex that wraps the nested machine of `sub`; its number is the number of vertices
    /// before the call.
    pub fn add_substate(self, sub: StateMachineVertex<V, C, E, G, A, L, Ans, GErr>) -> (r: Self)
        requires
            self.wf(),
            sub.sm.wf(),
        ensures
            r.wf(),
            r.vertices@.len() == self.vertices@.len() + 1,
            r.vertices@.drop_last() == self.vertices@,
            r.vertices@.last().data == sub.hooks,
            r.vertices@.last().sub is Some && r.vertices@.last().nested() == sub.sm,
            r.transitions.table() == self.transitions.table().push(Seq::empty()),
            r.current == self.current,
            r.state == self.state,
            r.forall_transitions == self.forall_transitions,
            r.journal == self.journal,
    {
        let StateMachineVertex { sm, hooks } = sub;
        let mut m = self;
        let ghost sub_depth = sm.depth@;
        m.vertices.push(Vertex { data: hooks, sub: Some(sm) });
        m.transitions = m.transitions.add();
        m.depth = Ghost(if m.depth@ > sub_depth { m.depth@ } else { sub_depth + 1 });
        proof {
            assert(m.vertices@.drop_last() =~= self.vertices@);
            m.lemma_wf_push_vertex(self);
        }
        m
    }

    /// Adds a transition from `source` to `target` on events of kind `event`, after the records
    /// that `source` already has. A transition may not enter `INITIAL`, leave `TERMINATION`, or
    /// have equal source and target (that is a loop: see `add_loop`).
    pub fn add_transition(self, source: usize, event: usize, target: usize, action: A, guard: G) -> (r: Self)
        requires
            self.wf(),
            source < self.vertices@.len(),
            target < self.vertices@.len(),
            source != target,
            source != TERMINATION,
            target != INITIAL,
        ensures
            r.wf(),
            r.transitions.table() == self.transitions.table().update(
                source as int,
                self.row(source as int).push(ITransition::Normal(Transition { source, event, target, guard, action })),
            ),
            r.vertices == self.vertices,
            r.current == self.current,
            r.state == self.state,
            r.forall_transitions == self.forall_transitions,
            r.journal == self.journal,
            r.depth == self.depth,
    {
        let mut m = self;
        let rec = ITransition::Normal(Transition::new(source, event, target, action, guard));
        m.transitions = m.transitions.append_inner(source, rec);
        proof {
            m.lemma_wf_append_record(self, source as int);
        }
        m
    }

    /// Adds a transition on events of kind `event` from every vertex but `target` to `target`,
    /// after those already added. It may not enter `INITIAL`.
    pub fn add_transition_forall(self, event: usize, target: usize, action: A, guard: G) -> (r: Self)
        requires
            self.wf(),
            target < self.vertices@.len(),
            target != INITIAL,
        ensures
            r.wf(),
            r.forall_transitions@ == self.forall_transitions@.push(ForallTransition { event, target, guard, action }),
            r.vertices == self.vertices,
            r.transitions == self.transitions,
            r.current == self.current,
            r.state == self.state,
            r.journal == self.journal,
            r.depth == self.depth,
    {
        let mut m = self;
        m.forall_transitions.push(ForallTransition::new(event, target, action, guard));
        proof {
            let n = m.vertices@.len();
            assert forall|j: int| 0 <= j < m.forall_transitions@.len() implies {
                &&& (#[trigger] m.forall_transitions@[j]).target < n
                &&& m.forall_transitions@[j].target != INITIAL
            } by {
                if j < self.forall_transitions@.len() {
                    assert(m.forall_transitions@[j] == self.forall_transitions@[j]);
                }
            }
            assert forall|s: int, i: int| 0 <= s < n && 0 <= i < m.row(s).len() implies (#[trigger] m.row(s)[i]).valid_from(s, n as int) by {
                assert(self.row(s)[i].valid_from(s, n as int));
            }
            assert forall|i: int| 0 <= i < n && (#[trigger] m.vertices@[i]).sub is Some implies {
                &&& m.vertices@[i].nested().depth@ < m.depth@
                &&& m.vertices@[i].nested().wf()
            } by {
                assert(self.vertices@[i] == m.vertices@[i]);
            }
        }
        m
    }

    /// Adds a loop on `vertex` for events of kind `event`, after the records that `vertex` already
    /// has. Neither pseudo-state can have a loop.
    pub fn add_loop(self, vertex: usize, event: usize, action: L, guard: G) -> (r: Self)
        requires
            self.wf(),
            vertex < self.vertices@.len(),
            vertex != INITIAL,
            vertex != TERMINATION,
        ensures
            r.wf(),
            r.transitions.table() == self.transitions.table().update(
                vertex as int,
                self.row(vertex as int).push(ITransition::Loop(LoopTransition { vertex, event, guard, action })),
            ),
            r.vertices == self.vertices,
            r.current == self.current,
            r.state == self.state,
            r.forall_transitions == self.forall_transitions,
            r.journal == self.journal,
            r.depth == self.depth,
    {
        let mut m = self;
        let rec = ITransition::Loop(LoopTransition::new(vertex, event, action, guard));
        m.transitions = m.transitions.append_inner(vertex, rec);
        proof {
            m.lemma_wf_append_record(self, vertex as int);
        }
        m
    }

    /// The slot of the current vertex.
    pub fn get_current(&self) -> (r: &Vertex<V, C, E, G, A, L, Ans, GErr>)
        requires
            self.current < self.vertices@.len(),
        ensures
            *r == self.vertices@[self.current as int],
    {
        &self.vertices[self.current]
    }

    /// The data of `vertex` if it is the current vertex and has data, `None` otherwise.
    pub fn get_current_as(&self, vertex: usize) -> (r: Option<&V>)
        requires
            self.current < self.vertices@.len(),
        ensures
            r == (if self.current == vertex {
                match self.vertices@[vertex as int].data {
                    Some(d) => Some(&d),
                    None => None,
                }
            } else {
                None
            }),
    {
        if self.current == vertex {
            self.vertices[vertex].data.as_ref()
        } else {
            None
        }
    }

    /// The slot of `vertex`.
    pub fn get_vertex(&self, vertex: usize) -> (r: &Vertex<V, C, E, G, A, L, Ans, GErr>)
        requires
            vertex < self.vertices@.len(),
        ensures
            *r == self.vertices@[vertex as int],
    {
        &self.vertices[vertex]
    }

    /// Where an event of `kind` goes from the current vertex.
    pub fn resolve(&self, kind: usize) -> (r: Route)
        requires
            self.wf(),
        ensures
            r == self.route(kind),
    {
        let cur = self.current;
        match &self.vertices[cur].sub {
            Some(m) => {
                if m.current != TERMINATION {
                    return Route::Substate;
                }
            },
            None => {},
        }
        if cur == TERMINATION {
            return Route::Unmatched;
        }
        let row = self.transitions.get(cur);
        let mut i: usize = 0;
        while i < row.len()
            invariant
                i <= row@.len(),
                row@ == self.row(cur as int),
                cur == self.current,
                cur != TERMINATION,
                !self.delegates(),
                forall|j: int| 0 <= j < i ==> (#[trigger] row@[j]).event() != kind,
            decreases row@.len() - i,
        {
            if row[i].event_kind() == kind {
                proof {
                    assert(self.is_first_record(kind, i as int));
                    let c = choose|c: usize| self.is_first_record(kind, c as int);
                    if c < i {
                        assert(row@[c as int].event() != kind);
                    }
                    if i < c {
                        assert(row@[i as int].event() == kind);
                    }
                    assert(c == i);
                }
                return Route::Record(i);
            }
            i = i + 1;
        }
        assert(!exists|c: usize| self.is_first_record(kind, c as int));
        let mut j: usize = 0;
        while j < self.forall_transitions.len()
            invariant
                j <= self.forall_transitions@.len(),
                cur == self.current,
                cur != TERMINATION,
                !self.delegates(),
                !exists|c: usize| self.is_first_record(kind, c as int),
                forall|k: int| 0 <= k < j ==> !#[trigger] self.forall_applies(kind, k),
            decreases self.forall_transitions@.len() - j,
        {
            let f = &self.forall_transitions[j];
            if f.event == kind && f.target != cur {
                proof {
                    assert(self.forall_applies(kind, j as int));
                    assert(self.is_first_forall(kind, j as int));
                    let c = choose|c: usize| self.is_first_forall(kind, c as int);
                    if c < j {
                        assert(!self.forall_applies(kind, c as int));
                    }
                    if j < c {
                        assert(self.forall_applies(kind, j as int));
                    }
                    assert(c == j);
                }
                return Route::Forall(j);
            }
            j = j + 1;
        }
        assert(!exists|c: usize| self.is_first_forall(kind, c as int));
        Route::Unmatched
    }
}

impl<V, C, E, G, A, L, Ans, GErr> StateMachine<V, C, E, G, A, L, Ans, GErr> where
    V: EntryVertex + ExitVertex,
    G: Guard<E, GErr>,
    A: Action<Option<V>, C, E, Option<V>, Ans>,
    L: ActionLoop<Option<V>, C, E, Ans>,
 {
    /// Processes one event of kind `kind`.
    ///
    /// The current vertex is offered the event first: while it holds a nested machine that has not
    /// terminated, the nested machine's result is the result and the current vertex stays.
    /// Otherwise the first record of the current vertex's row for `kind` is tried, and if there is
    /// none, the first transition from any vertex for `kind` whose target is not the current
    /// vertex. The one record tried decides: its guard error is the result, or its action runs,
    /// then the exit hook of the source and the entry hook of the target, the target becomes
    /// current, and the action's answer is the result. With no record to try the result is
    /// `NoTransitions` and nothing changes.
    pub fn process(&mut self, kind: usize, event: &E) -> (r: ProcessResult<Ans, GErr>)
        requires
            old(self).wf(),
        ensures
            final(self).wf(),
            final(self).depth == old(self).depth,
            old(self).step(kind, *event, *final(self), r),
        decreases old(self).depth@, 1nat,
    {
        let route = self.resolve(kind);
        let cur = self.current;
        match route {
            Route::Substate => {
                let ghost v0 = self.vertices@[cur as int];
                let sr = self.vertices[cur].process_substate(kind, event);
                proof {
                    self.lemma_wf_after_firing(*old(self));
                }
                // The nested machine's own result, which `sr` carries.
                let ghost pr = choose|pr: ProcessResult<Ans, GErr>|
                    sr == lift_result(pr) && #[trigger] v0.nested().step(kind, *event, self.vertices@[cur as int].nested(), pr);
                match sr {
                    ProcessResultSubstate::Handled(a) => {
                        assert(pr == ProcessResult::<Ans, GErr>::Handled(a));
                        ProcessResult::Handled(a)
                    },
                    ProcessResultSubstate::NoTransitions => {
                        assert(pr == ProcessResult::<Ans, GErr>::NoTransitions);
                        ProcessResult::NoTransitions
                    },
                    ProcessResultSubstate::GuardErr(e) => {
                        assert(pr == ProcessResult::<Ans, GErr>::GuardErr(e));
                        ProcessResult::GuardErr(e)
                    },
                    ProcessResultSubstate::MustLeaveState => ProcessResult::NoTransitions,
                }
            },
            Route::Record(i) => {
                let row = self.transitions.get(cur);
                let rec = &row[i];
                let target = rec.target_vertex();
                proof {
                    assert(self.row(cur as int)[i as int].valid_from(cur as int, self.vertices@.len() as int));
                }
                let res = rec.process(kind, &mut self.vertices, &mut self.state, &mut self.journal, event);
                if let ProcessResultInner::HandledAndProcessEnd(_) = &res {
                    self.current = target;
                }
                proof {
                    self.lemma_wf_after_firing(*old(self));
                }
                ProcessResult::from(res)
            },
            Route::Forall(j) => {
                proof {
                    assert(old(self).is_first_forall(kind, j as int));
                }
                let f = &self.forall_transitions[j];
                let target = f.target;
                let res = f.process(kind, cur, &mut self.vertices, &mut self.state, &mut self.journal, event);
                if let ProcessResultInner::HandledAndProcessEnd(_) = &res {
                    self.current = target;
                }
                proof {
                    self.lemma_wf_after_firing(*old(self));
                }
                ProcessResult::from(res)
            },
            Route::Unmatched => ProcessResult::NoTransitions,
        }
    }
}

impl<V, C, E, G, A, L, Ans, GErr> StateMachine<V, C, E, G, A, L, Ans, GErr> {
    /// A machine stays well formed when a vertex with an empty row is added at the end, provided
    /// its nested machine, if any, is well formed and less deep than the machine.
    proof fn lemma_wf_push_vertex(&self, before: Self)
        requires
            before.wf(),
            self.vertices@.len() == before.vertices@.len() + 1,
            self.vertices@.drop_last() == before.vertices@,
            self.transitions.table() == before.transitions.table().push(Seq::empty()),
            self.forall_transitions == before.forall_transitions,
            self.current == before.current,
            self.depth@ >= before.depth@,
            self.vertices@.last().sub is Some ==> {
                &&& self.vertices@.last().nested().wf()
                &&& self.vertices@.last().nested().depth@ < self.depth@
            },
        ensures
            self.wf(),
    {
        let n = self.vertices@.len();
        assert forall|i: int| 0 <= i < n - 1 implies #[trigger] self.vertices@[i] == before.vertices@[i] by {
            assert(self.vertices@.drop_last()[i] == self.vertices@[i]);
        }
        assert forall|s: int, i: int| 0 <= s < n && 0 <= i < self.row(s).len() implies (#[trigger] self.row(s)[i]).valid_from(s, n as int) by {
            if s < n - 1 {
                assert(self.row(s) == before.row(s));
                assert(before.row(s)[i].valid_from(s, n - 1));
            } else {
                assert(self.row(s).len() == 0);
            }
        }
        assert forall|i: int| 0 <= i < n && (#[trigger] self.vertices@[i]).sub is Some implies {
            &&& self.vertices@[i].nested().depth@ < self.depth@
            &&& self.vertices@[i].nested().wf()
        } by {
            if i < n - 1 {
                assert(before.vertices@[i] == self.vertices@[i]);
            }
        }
    }

    /// A machine stays well formed when a record valid from `source` is added at the end of the
    /// row of `source`.
    proof fn lemma_wf_append_record(&self, before: Self, source: int)
        requires
            before.wf(),
            0 <= source < before.vertices@.len(),
            self.transitions.table() == before.transitions.table().update(
                source,
                before.row(source).push(self.row(source).last()),
            ),
            self.row(source).last().valid_from(source, before.vertices@.len() as int),
            self.vertices == before.vertices,
            self.forall_transitions == before.forall_transitions,
            self.current == before.current,
            self.depth == before.depth,
        ensures
            self.wf(),
    {
        let n = self.vertices@.len();
        assert forall|s: int, i: int| 0 <= s < n && 0 <= i < self.row(s).len() implies (#[trigger] self.row(s)[i]).valid_from(s, n as int) by {
            if s != source || i < before.row(s).len() {
                assert(before.row(s)[i].valid_from(s, n as int));
            }
        }
    }

    /// A machine stays well formed when only vertex data, the context, the journal and the current
    /// vertex change, and each nested machine is kept or replaced by a well-formed one that is less
    /// deep than the machine.
    proof fn lemma_wf_after_firing(&self, before: Self)
        requires
            before.wf(),
            self.same_tables(before),
            self.current < self.vertices@.len(),
            self.vertices@.len() == before.vertices@.len(),
            forall|i: int|
                0 <= i < self.vertices@.len() ==> (#[trigger] self.vertices@[i]).sub == before.vertices@[i].sub || {
                    &&& before.vertices@[i].sub is Some
                    &&& self.vertices@[i].sub is Some
                    &&& self.vertices@[i].nested().wf()
                    &&& self.vertices@[i].nested().depth@ < self.depth@
                },
        ensures
            self.wf(),
    {
        let n = self.vertices@.len();
        assert(self.vertices@[INITIAL as int].sub == before.vertices@[INITIAL as int].sub);
        assert(self.vertices@[TERMINATION as int].sub == before.vertices@[TERMINATION as int].sub);
        assert forall|s: int, i: int| 0 <= s < n && 0 <= i < self.row(s).len() implies (#[trigger] self.row(s)[i]).valid_from(s, n as int) by {
            assert(before.row(s)[i].valid_from(s, n as int));
        }
        assert forall|i: int| 0 <= i < n && (#[trigger] self.vertices@[i]).sub is Some implies {
            &&& self.vertices@[i].nested().depth@ < self.depth@
            &&& self.vertices@[i].nested().wf()
        } by {
            if self.vertices@[i].sub == before.vertices@[i].sub {
                assert(before.vertices@[i].nested().wf());
            }
        }
    }
}

impl<V, C, E, G, A, L, Ans, GErr> ProcessEvent<E, Ans, GErr> for StateMachine<V, C, E, G, A, L, Ans, GErr> where
    V: EntryVertex + ExitVertex,
    G: Guard<E, GErr>,
    A: Action<Option<V>, C, E, Option<V>, Ans>,
    L: ActionLoop<Option<V>, C, E, Ans>,
 {
    open spec fn ready(&self) -> bool {
        self.wf()
    }

    fn process(&mut self, kind: usize, event: &E) -> (r: ProcessResult<Ans, GErr>)
        ensures
            final(self).wf(),
            old(self).step(kind, *event, *final(self), r),
    {
        StateMachine::process(self, kind, event)
    }
}

} // verus!
