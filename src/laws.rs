//! Properties of `StateMachine::process`, stated over the relation `StateMachine::step` that its
//! contract establishes.
use crate::process_result::ProcessResult;
use crate::sm::{decides, verdict_result, Route, StateMachine};
use crate::transition::{firing, touches_only, Effect};
use crate::guard::guard_gives;
use crate::vertex::TERMINATION;
use crate::Guard;
use vstd::prelude::*;

verus! {

/// The guard of the record that an event of `kind` is routed to.
pub open spec fn tried_guard<V, C, E, G, A, L, Ans, GErr>(m: StateMachine<V, C, E, G, A, L, Ans, GErr>, kind: usize) -> G
    recommends
        m.route(kind) is Record || m.route(kind) is Forall,
{
    match m.route(kind) {
        Route::Record(i) => m.row(m.current as int)[i as int].guard(),
        _ => m.forall_transitions@[m.route(kind)->Forall_0 as int].guard,
    }
}

/// The target of the record that an event of `kind` is routed to.
pub open spec fn tried_target<V, C, E, G, A, L, Ans, GErr>(m: StateMachine<V, C, E, G, A, L, Ans, GErr>, kind: usize) -> usize
    recommends
        m.route(kind) is Record || m.route(kind) is Forall,
{
    match m.route(kind) {
        Route::Record(i) => m.row(m.current as int)[i as int].target(),
        _ => m.forall_transitions@[m.route(kind)->Forall_0 as int].target,
    }
}

/// The effects one call adds to the journal when the machine's own tables decide: none, a
/// rejected guard, or one whole transition, which holds exactly one action.
pub open spec fn one_transition_at_most(before: Seq<Effect>, after: Seq<Effect>) -> bool {
    ||| after == before
    ||| after == before.push(Effect::Guard)
    ||| exists|s: usize, t: usize| after == before + #[trigger] firing(s, t)
}

/// A call of `process` fires at most one record: the journal grows by nothing, by a rejected
/// guard, or by the steps of one transition; while the current vertex hands the event to its
/// nested machine the outer journal does not grow at all. The current vertex changes only when
/// the result is `Handled`, and then only to that one record's target.
pub proof fn lemma_one_transition_per_call<V, C, E, G, A, L, Ans, GErr>(
    m: StateMachine<V, C, E, G, A, L, Ans, GErr>,
    kind: usize,
    event: E,
    next: StateMachine<V, C, E, G, A, L, Ans, GErr>,
    r: ProcessResult<Ans, GErr>,
) where G: Guard<E, GErr>,

    requires
        m.wf(),
        m.step(kind, event, next, r),
    ensures
        one_transition_at_most(m.journal@, next.journal@),
        m.delegates() ==> next.journal@ == m.journal@,
        next.current != m.current ==> r is Handled,
{
    match m.route(kind) {
        Route::Unmatched => {},
        Route::Substate => {},
        Route::Record(i) => {
            let rec = m.row(m.current as int)[i as int];
            if r is Handled {
                assert(next.journal@ == m.journal@ + firing(rec.source(), rec.target()));
            }
        },
        Route::Forall(j) => {
            if r is Handled {
                assert(next.journal@ == m.journal@ + firing(m.current, m.forall_transitions@[j as int].target));
            }
        },
    }
}

/// A guard that rejects the event stops everything after it: no action, exit or entry runs, the
/// current vertex, the context and every vertex stay as they were, and the journal records the
/// guard check alone. Through nested machines the same holds at each level.
pub proof fn lemma_guard_failure_changes_nothing<V, C, E, G, A, L, Ans, GErr>(
    m: StateMachine<V, C, E, G, A, L, Ans, GErr>,
    kind: usize,
    event: E,
    next: StateMachine<V, C, E, G, A, L, Ans, GErr>,
    e: GErr,
) where G: Guard<E, GErr>,

    requires
        m.wf(),
        m.step(kind, event, next, ProcessResult::GuardErr(e)),
    ensures
        next.current == m.current,
        next.state == m.state,
        !m.delegates() ==> {
            &&& m.route(kind) is Record || m.route(kind) is Forall
            &&& guard_gives(tried_guard(m, kind), event, Err(e))
            &&& next.vertices@ == m.vertices@
            &&& next.journal@ == m.journal@.push(Effect::Guard)
        },
        m.delegates() ==> {
            let v0 = m.vertices@[m.current as int];
            let v1 = next.vertices@[m.current as int];
            &&& next.journal@ == m.journal@
            &&& v1.data == v0.data
            &&& v1.nested().current == v0.nested().current
            &&& v1.nested().state == v0.nested().state
        },
    decreases m.depth@,
{
    if m.delegates() {
        let v0 = m.vertices@[m.current as int];
        let v1 = next.vertices@[m.current as int];
        lemma_guard_failure_changes_nothing(v0.nested(), kind, event, v1.nested(), e);
    }
}

/// An accepted transition runs its steps in one order: guard, action, exit hook of the source,
/// entry hook of the target. The source is the vertex that was current and the target the vertex
/// that is current afterwards.
pub proof fn lemma_effect_order<V, C, E, G, A, L, Ans, GErr>(
    m: StateMachine<V, C, E, G, A, L, Ans, GErr>,
    kind: usize,
    event: E,
    next: StateMachine<V, C, E, G, A, L, Ans, GErr>,
    answer: Ans,
) where G: Guard<E, GErr>,

    requires
        m.wf(),
        !m.delegates(),
        m.step(kind, event, next, ProcessResult::Handled(answer)),
    ensures
        next.journal@ == m.journal@ + firing(m.current, next.current),
        next.journal@.subrange(m.journal@.len() as int, next.journal@.len() as int) == seq![
            Effect::Guard,
            Effect::Action,
            Effect::Exit(m.current),
            Effect::Entry(next.current),
        ],
{
    match m.route(kind) {
        Route::Record(i) => {
            assert(m.row(m.current as int)[i as int].valid_from(m.current as int, m.vertices@.len() as int));
        },
        _ => {},
    }
    assert(next.journal@.subrange(m.journal@.len() as int, next.journal@.len() as int) =~= firing(m.current, next.current));
}

/// A loop fires on one vertex: the action, then one exit and one entry of that same vertex, and
/// the vertex stays current. No other vertex changes, and the nested machine, if any, stays.
pub proof fn lemma_loop_touches_one_vertex<V, C, E, G, A, L, Ans, GErr>(
    m: StateMachine<V, C, E, G, A, L, Ans, GErr>,
    kind: usize,
    event: E,
    next: StateMachine<V, C, E, G, A, L, Ans, GErr>,
    answer: Ans,
) where G: Guard<E, GErr>,

    requires
        m.wf(),
        m.route(kind) is Record,
        m.row(m.current as int)[m.route(kind)->Record_0 as int] is Loop,
        m.step(kind, event, next, ProcessResult::Handled(answer)),
    ensures
        next.current == m.current,
        next.journal@ == m.journal@ + seq![
            Effect::Guard,
            Effect::Action,
            Effect::Exit(m.current),
            Effect::Entry(m.current),
        ],
        touches_only(m.vertices@, next.vertices@, m.current, m.current),
{
    let i = m.route(kind)->Record_0;
    assert(m.row(m.current as int)[i as int].valid_from(m.current as int, m.vertices@.len() as int));
}

/// When no record of the current vertex's row takes events of `kind`, the first transition from
/// any vertex for `kind` whose target is not the current vertex is tried, and fires like an
/// ordinary transition.
pub proof fn lemma_forall_fallback<V, C, E, G, A, L, Ans, GErr>(
    m: StateMachine<V, C, E, G, A, L, Ans, GErr>,
    kind: usize,
    event: E,
    j: usize,
    next: StateMachine<V, C, E, G, A, L, Ans, GErr>,
    r: ProcessResult<Ans, GErr>,
) where G: Guard<E, GErr>,

    requires
        m.wf(),
        !m.delegates(),
        m.current != TERMINATION,
        forall|i: int| 0 <= i < m.row(m.current as int).len() ==> (#[trigger] m.row(m.current as int)[i]).event() != kind,
        m.is_first_forall(kind, j as int),
        m.step(kind, event, next, r),
    ensures
        m.route(kind) == Route::Forall(j),
        r is Handled ==> {
            &&& next.current == m.forall_transitions@[j as int].target
            &&& next.journal@ == m.journal@ + firing(m.current, next.current)
        },
        !(r is NoTransitions),
{
    assert(!exists|i: usize| m.is_first_record(kind, i as int));
    let c = choose|c: usize| m.is_first_forall(kind, c as int);
    if c < j {
        assert(m.forall_applies(kind, c as int));
    }
    if j < c {
        assert(m.forall_applies(kind, j as int));
    }
}

/// While the current vertex holds a nested machine that has not terminated, every event goes to
/// the nested machine: the outer machine's current vertex, context, journal and every other
/// vertex stay as they were, whatever its own tables hold for that event.
pub proof fn lemma_substate_absorbs<V, C, E, G, A, L, Ans, GErr>(
    m: StateMachine<V, C, E, G, A, L, Ans, GErr>,
    kind: usize,
    event: E,
    next: StateMachine<V, C, E, G, A, L, Ans, GErr>,
    r: ProcessResult<Ans, GErr>,
) where G: Guard<E, GErr>,

    requires
        m.wf(),
        m.delegates(),
        m.step(kind, event, next, r),
    ensures
        next.current == m.current,
        next.state == m.state,
        next.journal == m.journal,
        next.vertices@.len() == m.vertices@.len(),
        forall|k: int| 0 <= k < m.vertices@.len() && k != m.current ==> #[trigger] next.vertices@[k] == m.vertices@[k],
        m.vertices@[m.current as int].nested().step(kind, event, next.vertices@[m.current as int].nested(), r),
{
}

} // verus!

verus! {

/// A tried record whose guard can only reject with `e` gives `GuardErr(e)`, and nothing but the
/// guard check happens: no action, exit or entry runs and the machine is unchanged.
pub proof fn lemma_rejecting_guard_gives_guard_err<V, C, E, G, A, L, Ans, GErr>(
    m: StateMachine<V, C, E, G, A, L, Ans, GErr>,
    kind: usize,
    event: E,
    e: GErr,
    next: StateMachine<V, C, E, G, A, L, Ans, GErr>,
    r: ProcessResult<Ans, GErr>,
) where G: Guard<E, GErr>,

    requires
        m.wf(),
        !m.delegates(),
        m.route(kind) is Record || m.route(kind) is Forall,
        forall|v: Result<(), GErr>| #[trigger] guard_gives(tried_guard(m, kind), event, v) ==> v == Err::<(), GErr>(e),
        m.step(kind, event, next, r),
    ensures
        r == ProcessResult::<Ans, GErr>::GuardErr(e),
        next.current == m.current,
        next.state == m.state,
        next.vertices@ == m.vertices@,
        next.journal@ == m.journal@.push(Effect::Guard),
{
    let g = tried_guard(m, kind);
    match m.route(kind) {
        Route::Record(i) => {
            let rec = m.row(m.current as int)[i as int];
            assert(rec.valid_from(m.current as int, m.vertices@.len() as int));
            assert(m.fired_to(next, rec.guard(), event, rec.source(), rec.target(), r));
        },
        _ => {
            let f = m.forall_transitions@[m.route(kind)->Forall_0 as int];
            assert(m.fired_to(next, f.guard, event, m.current, f.target, r));
        },
    }
    assert(decides(g, event, r));
    let v = choose|v: Result<(), GErr>| #[trigger] guard_gives(g, event, v) && verdict_result(v, r);
    assert(v == Err::<(), GErr>(e));
}

/// A tried record whose guard can only accept fires: the result is `Handled`, the record's target
/// becomes current, guard, action, exit of the current vertex and entry of the target run in this
/// order, and only those two vertices' data change.
pub proof fn lemma_accepting_guard_fires<V, C, E, G, A, L, Ans, GErr>(
    m: StateMachine<V, C, E, G, A, L, Ans, GErr>,
    kind: usize,
    event: E,
    next: StateMachine<V, C, E, G, A, L, Ans, GErr>,
    r: ProcessResult<Ans, GErr>,
) where G: Guard<E, GErr>,

    requires
        m.wf(),
        !m.delegates(),
        m.route(kind) is Record || m.route(kind) is Forall,
        forall|v: Result<(), GErr>| #[trigger] guard_gives(tried_guard(m, kind), event, v) ==> v is Ok,
        m.step(kind, event, next, r),
    ensures
        r is Handled,
        next.current == tried_target(m, kind),
        next.journal@ == m.journal@ + firing(m.current, next.current),
        touches_only(m.vertices@, next.vertices@, m.current, next.current),
{
    let g = tried_guard(m, kind);
    match m.route(kind) {
        Route::Record(i) => {
            let rec = m.row(m.current as int)[i as int];
            assert(rec.valid_from(m.current as int, m.vertices@.len() as int));
            assert(m.fired_to(next, rec.guard(), event, rec.source(), rec.target(), r));
        },
        _ => {
            let f = m.forall_transitions@[m.route(kind)->Forall_0 as int];
            assert(m.fired_to(next, f.guard, event, m.current, f.target, r));
        },
    }
    assert(decides(g, event, r));
    let v = choose|v: Result<(), GErr>| #[trigger] guard_gives(g, event, v) && verdict_result(v, r);
    assert(v is Ok);
}

} // verus!
