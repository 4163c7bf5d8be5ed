use std::cell::RefCell;
use std::rc::Rc;
use umlsm::action::{EmptyActionLoop, EmptyForallAction};
use umlsm::sm::Route;
use umlsm::guard::EmptyGuard;
use umlsm::vertex::{EmptyVertex, StateMachineVertex};
use umlsm::{
    Action, ActionLoop, CurrentStateIs, EntryVertex, ExitVertex, Guard, ProcessEvent, ProcessResult,
    ProcessResultInner, StateMachine, INITIAL, TERMINATION,
};

// Event kinds shared by the tests.
const START: usize = 0;
const PUSH: usize = 1;
const A_EVENT: usize = 2;
const B_EVENT: usize = 3;
const EXIT: usize = 4;

struct Ev;

// ---------------------------------------------------------------------------------------------
// A turnstile: Locked and Unlocked.

const LOCKED: usize = 2;
const UNLOCKED: usize = 3;

enum Door {
    Locked,
    Unlocked,
}

impl EntryVertex for Door {
    fn entry(&mut self) {
        match self {
            Door::Locked => println!("entry Locked!"),
            Door::Unlocked => println!("entry Unlocked!"),
        }
    }
}

impl ExitVertex for Door {
    fn exit(&mut self) {
        match self {
            Door::Locked => println!("exit Locked!"),
            Door::Unlocked => println!("exit Unlocked!"),
        }
    }
}

enum DoorAction {
    Silent,
    Beep,
}

impl Action<Option<Door>, (), Ev, Option<Door>, &'static str> for DoorAction {
    fn trigger(&self, _: &mut Option<Door>, _: &mut (), _: &Ev, _: &mut Option<Door>) -> &'static str {
        match self {
            DoorAction::Silent => "",
            DoorAction::Beep => {
                println!("beep!");
                "beep"
            }
        }
    }
}

struct Accept;

struct NoLoop;

impl ActionLoop<Option<Door>, (), Ev, &'static str> for NoLoop {
    fn trigger(&self, _: &mut Option<Door>, _: &mut (), _: &Ev) -> &'static str {
        ""
    }
}

impl Guard<Ev, ()> for Accept {
    fn check(&self, _: &Ev) -> Result<(), ()> {
        Ok(())
    }
}

type DoorMachine = StateMachine<Door, (), Ev, Vec<Accept>, DoorAction, NoLoop, &'static str, ()>;

fn door_machine() -> DoorMachine {
    StateMachine::new(())
        .add_vertex(Door::Locked)
        .add_vertex(Door::Unlocked)
        .add_transition(INITIAL, START, LOCKED, DoorAction::Silent, vec![])
        .add_transition(LOCKED, PUSH, UNLOCKED, DoorAction::Beep, vec![])
        .add_transition(UNLOCKED, START, TERMINATION, DoorAction::Silent, vec![])
}

#[test]
fn test() {
    let sm = door_machine();

    let mut sm = sm;
    assert!(sm.is(INITIAL));

    sm.process(START, &Ev).unwrap();
    assert!(sm.is(LOCKED));

    sm.process(PUSH, &Ev).unwrap();
    assert!(sm.is(UNLOCKED));

    sm.process(START, &Ev).unwrap();
    assert!(sm.is(TERMINATION));

    assert!(!ProcessEvent::process(&mut sm, START, &Ev).is_handled());
}

#[test]
fn push_unlocks_once_then_no_transitions() {
    let mut sm = door_machine();
    sm.process(START, &Ev).unwrap();
    assert!(sm.is(LOCKED));

    match sm.process(PUSH, &Ev) {
        ProcessResult::Handled(answer) => assert_eq!(answer, "beep"),
        _ => panic!("expected a handled push"),
    }
    assert!(sm.is(UNLOCKED));

    assert!(matches!(sm.process(PUSH, &Ev), ProcessResult::NoTransitions));
    assert!(sm.is(UNLOCKED));
}

#[test]
fn unknown_event_kind_is_not_handled() {
    let mut sm = door_machine();
    assert!(matches!(sm.process(PUSH, &Ev), ProcessResult::NoTransitions));
    assert!(sm.is(INITIAL));
    assert!(matches!(sm.process(PUSH, &Ev), ProcessResult::NoTransitions));
    assert!(sm.is(INITIAL));
}

#[test]
fn current_vertex_queries() {
    let mut sm = door_machine();
    assert!(sm.get_current_as(LOCKED).is_none());
    assert!(sm.get_current().data.is_none());
    sm.process(START, &Ev).unwrap();
    assert!(matches!(sm.get_current_as(LOCKED), Some(Door::Locked)));
    assert!(sm.get_current_as(UNLOCKED).is_none());
    assert!(matches!(sm.get_vertex(UNLOCKED).data, Some(Door::Unlocked)));
    assert!(sm.get_vertex(INITIAL).data.is_none());
}

// ---------------------------------------------------------------------------------------------
// A vertex with a loop.

const LOOPED: usize = 2;

struct Looped {
    visits: u32,
}

impl EntryVertex for Looped {}
impl ExitVertex for Looped {}

enum LoopedAction {
    Start,
    BEvent,
}

impl Action<Option<Looped>, (), Ev, Option<Looped>, ()> for LoopedAction {
    fn trigger(&self, _: &mut Option<Looped>, _: &mut (), _: &Ev, _: &mut Option<Looped>) {}
}

struct AEvent;

impl ActionLoop<Option<Looped>, (), Ev, ()> for AEvent {
    fn trigger(&self, vertex: &mut Option<Looped>, _: &mut (), _: &Ev) {
        if let Some(v) = vertex {
            v.visits += 1;
        }
    }
}

type LoopMachine = StateMachine<Looped, (), Ev, Vec<Accept>, LoopedAction, AEvent, (), ()>;

fn looped_machine() -> LoopMachine {
    StateMachine::new(())
        .add_vertex(Looped { visits: 0 })
        .add_transition(INITIAL, START, LOOPED, LoopedAction::Start, vec![])
        .add_transition(LOOPED, B_EVENT, TERMINATION, LoopedAction::BEvent, vec![])
        .add_loop(LOOPED, A_EVENT, AEvent, vec![])
}

#[test]
fn test_looped() {
    let mut sm = looped_machine();

    sm.process(START, &Ev).unwrap();

    sm.process(A_EVENT, &Ev).unwrap();
    assert!(sm.is(LOOPED));

    sm.process(A_EVENT, &Ev).unwrap();
    assert!(sm.is(LOOPED));

    sm.process(B_EVENT, &Ev).unwrap();
    assert!(sm.is(TERMINATION));
}

#[test]
fn loop_three_times_then_terminate() {
    let mut sm = looped_machine();
    sm.process(START, &Ev).unwrap();
    for _ in 0..3 {
        assert!(sm.process(A_EVENT, &Ev).is_handled());
        assert!(sm.is(LOOPED));
    }
    assert_eq!(sm.get_current_as(LOOPED).map(|v| v.visits), Some(3));
    assert!(sm.process(B_EVENT, &Ev).is_handled());
    assert!(sm.is(TERMINATION));
    assert!(matches!(sm.process(A_EVENT, &Ev), ProcessResult::NoTransitions));
    assert!(sm.is(TERMINATION));
    // The data of a vertex is kept after it is left.
    assert_eq!(sm.get_vertex(LOOPED).data.as_ref().map(|v| v.visits), Some(3));
}

// ---------------------------------------------------------------------------------------------
// Recording doubles: every guard, action and hook writes to one shared log.

type Log = Rc<RefCell<Vec<String>>>;

struct Rec {
    name: &'static str,
    log: Log,
}

impl EntryVertex for Rec {
    fn entry(&mut self) {
        self.log.borrow_mut().push(format!("entry {}", self.name));
    }
}

impl ExitVertex for Rec {
    fn exit(&mut self) {
        self.log.borrow_mut().push(format!("exit {}", self.name));
    }
}

struct RecGuard {
    name: &'static str,
    accept: bool,
    log: Log,
}

impl Guard<Ev, String> for RecGuard {
    fn check(&self, _: &Ev) -> Result<(), String> {
        self.log.borrow_mut().push(format!("guard {}", self.name));
        if self.accept {
            Ok(())
        } else {
            Err(format!("{} rejects", self.name))
        }
    }
}

struct RecAction {
    name: &'static str,
    log: Log,
}

impl Action<Option<Rec>, u32, Ev, Option<Rec>, &'static str> for RecAction {
    fn trigger(&self, _: &mut Option<Rec>, ctx: &mut u32, _: &Ev, _: &mut Option<Rec>) -> &'static str {
        *ctx += 1;
        self.log.borrow_mut().push(format!("action {}", self.name));
        self.name
    }
}

impl ActionLoop<Option<Rec>, u32, Ev, &'static str> for RecAction {
    fn trigger(&self, _: &mut Option<Rec>, ctx: &mut u32, _: &Ev) -> &'static str {
        *ctx += 1;
        self.log.borrow_mut().push(format!("loop {}", self.name));
        self.name
    }
}

type RecMachine = StateMachine<Rec, u32, Ev, Vec<RecGuard>, RecAction, RecAction, &'static str, String>;

const FIRST: usize = 2;
const SECOND: usize = 3;

fn rec(name: &'static str, log: &Log) -> Rec {
    Rec { name, log: log.clone() }
}

fn act(name: &'static str, log: &Log) -> RecAction {
    RecAction { name, log: log.clone() }
}

fn guard(name: &'static str, accept: bool, log: &Log) -> RecGuard {
    RecGuard { name, accept, log: log.clone() }
}

fn recording_machine(log: &Log, accept: bool) -> RecMachine {
    StateMachine::new(0)
        .add_vertex(rec("first", log))
        .add_vertex(rec("second", log))
        .add_transition(INITIAL, START, FIRST, act("start", log), vec![])
        .add_transition(FIRST, PUSH, SECOND, act("push", log), vec![guard("g", accept, log)])
        .add_loop(SECOND, A_EVENT, act("again", log), vec![])
}

#[test]
fn accepted_transition_runs_guard_action_exit_entry_in_order() {
    let log: Log = Rc::new(RefCell::new(Vec::new()));
    let mut sm = recording_machine(&log, true);
    sm.process(START, &Ev).unwrap();
    log.borrow_mut().clear();

    assert_eq!(sm.process(PUSH, &Ev).unwrap(), "push");
    assert_eq!(*log.borrow(), vec!["guard g", "action push", "exit first", "entry second"]);
    assert!(sm.is(SECOND));
    assert_eq!(sm.state, 2);
}

#[test]
fn rejected_guard_runs_nothing_else() {
    let log: Log = Rc::new(RefCell::new(Vec::new()));
    let mut sm = recording_machine(&log, false);
    sm.process(START, &Ev).unwrap();
    log.borrow_mut().clear();

    match sm.process(PUSH, &Ev) {
        ProcessResult::GuardErr(e) => assert_eq!(e, "g rejects"),
        _ => panic!("expected a guard error"),
    }
    assert_eq!(*log.borrow(), vec!["guard g"]);
    assert!(sm.is(FIRST));
    assert_eq!(sm.state, 1);
}

#[test]
fn loop_exits_and_enters_the_same_vertex_once() {
    let log: Log = Rc::new(RefCell::new(Vec::new()));
    let mut sm = recording_machine(&log, true);
    sm.process(START, &Ev).unwrap();
    sm.process(PUSH, &Ev).unwrap();
    log.borrow_mut().clear();

    assert_eq!(sm.process(A_EVENT, &Ev).unwrap(), "again");
    assert_eq!(*log.borrow(), vec!["loop again", "exit second", "entry second"]);
    assert!(sm.is(SECOND));
}

#[test]
fn guard_failure_does_not_fall_back_to_a_later_record() {
    let log: Log = Rc::new(RefCell::new(Vec::new()));
    let mut sm: RecMachine = StateMachine::new(0)
        .add_vertex(rec("first", &log))
        .add_vertex(rec("second", &log))
        .add_transition(INITIAL, PUSH, FIRST, act("one", &log), vec![guard("no", false, &log)])
        .add_transition(INITIAL, PUSH, SECOND, act("two", &log), vec![])
        .add_transition_forall(PUSH, SECOND, act("any", &log), vec![]);
    match sm.process(PUSH, &Ev) {
        ProcessResult::GuardErr(e) => assert_eq!(e, "no rejects"),
        _ => panic!("expected a guard error"),
    }
    assert!(sm.is(INITIAL));
    assert_eq!(*log.borrow(), vec!["guard no"]);
}

#[test]
fn first_matching_record_wins() {
    let log: Log = Rc::new(RefCell::new(Vec::new()));
    let mut sm: RecMachine = StateMachine::new(0)
        .add_vertex(rec("first", &log))
        .add_vertex(rec("second", &log))
        .add_transition(INITIAL, START, SECOND, act("other kind", &log), vec![])
        .add_transition(INITIAL, PUSH, FIRST, act("one", &log), vec![])
        .add_transition(INITIAL, PUSH, SECOND, act("two", &log), vec![]);
    assert_eq!(sm.process(PUSH, &Ev).unwrap(), "one");
    assert!(sm.is(FIRST));
}

#[test]
fn guard_list_stops_at_first_failure() {
    let log: Log = Rc::new(RefCell::new(Vec::new()));
    let guards = vec![guard("a", true, &log), guard("b", false, &log), guard("c", false, &log)];
    assert_eq!(guards.check(&Ev), Err("b rejects".to_string()));
    assert_eq!(*log.borrow(), vec!["guard a", "guard b"]);

    let empty: Vec<RecGuard> = Vec::new();
    assert_eq!(empty.check(&Ev), Ok(()));
}

// ---------------------------------------------------------------------------------------------
// Transitions from any vertex.

#[test]
fn forall_transition_fires_when_no_record_matches() {
    let log: Log = Rc::new(RefCell::new(Vec::new()));
    let mut sm: RecMachine = StateMachine::new(0)
        .add_vertex(rec("first", &log))
        .add_vertex(rec("second", &log))
        .add_transition(INITIAL, START, FIRST, act("start", &log), vec![])
        .add_transition(FIRST, PUSH, SECOND, act("push", &log), vec![])
        .add_transition_forall(EXIT, TERMINATION, act("bye", &log), vec![]);
    sm.process(START, &Ev).unwrap();
    log.borrow_mut().clear();

    assert_eq!(sm.process(EXIT, &Ev).unwrap(), "bye");
    assert_eq!(*log.borrow(), vec!["action bye", "exit first"]);
    assert!(sm.is(TERMINATION));
    assert!(matches!(sm.process(EXIT, &Ev), ProcessResult::NoTransitions));
}

#[test]
fn forall_transition_skips_its_own_target() {
    let log: Log = Rc::new(RefCell::new(Vec::new()));
    let mut sm: RecMachine = StateMachine::new(0)
        .add_vertex(rec("first", &log))
        .add_vertex(rec("second", &log))
        .add_transition(INITIAL, START, FIRST, act("start", &log), vec![])
        .add_transition_forall(PUSH, FIRST, act("to first", &log), vec![])
        .add_transition_forall(PUSH, SECOND, act("to second", &log), vec![]);
    sm.process(START, &Ev).unwrap();
    // From FIRST the transition to FIRST is skipped and the next one fires.
    assert_eq!(sm.process(PUSH, &Ev).unwrap(), "to second");
    assert!(sm.is(SECOND));
    // From SECOND the first one applies again.
    assert_eq!(sm.process(PUSH, &Ev).unwrap(), "to first");
    assert!(sm.is(FIRST));
}

#[test]
fn forall_only_to_current_vertex_gives_no_transitions() {
    let mut sm: DoorMachine = StateMachine::new(())
        .add_vertex(Door::Locked)
        .add_transition(INITIAL, START, LOCKED, DoorAction::Silent, vec![])
        .add_transition_forall(PUSH, LOCKED, DoorAction::Beep, vec![]);
    assert_eq!(sm.process(PUSH, &Ev).unwrap(), "beep");
    assert!(sm.is(LOCKED));
    assert!(matches!(sm.process(PUSH, &Ev), ProcessResult::NoTransitions));
}

#[test]
fn empty_forall_action_answers_unit() {
    let mut sm: StateMachine<EmptyVertex, (), Ev, Vec<Accept>, EmptyForallAction, EmptyActionLoop, (), ()> =
        StateMachine::new(()).add_transition_forall(EXIT, TERMINATION, EmptyForallAction::new(), vec![]);
    assert!(sm.process(EXIT, &Ev).is_handled());
    assert!(sm.is(TERMINATION));
}

// ---------------------------------------------------------------------------------------------
// Sub-machine vertices.

struct Plain;
impl EntryVertex for Plain {}
impl ExitVertex for Plain {}

type SubMachine = StateMachine<Plain, (), Ev, Vec<Accept>, EmptyForallAction, EmptyActionLoop, (), ()>;

const INNER: usize = 2;

#[test]
fn sub_machine_absorbs_events_until_it_terminates() {
    let inner: SubMachine = StateMachine::new(()).add_transition(INITIAL, B_EVENT, TERMINATION, EmptyForallAction::new(), vec![]);
    let mut sm: SubMachine = StateMachine::new(())
        .add_substate(StateMachineVertex::empty(inner))
        .add_transition(INITIAL, START, INNER, EmptyForallAction::new(), vec![])
        .add_transition(INNER, A_EVENT, TERMINATION, EmptyForallAction::new(), vec![]);
    assert!(sm.is(INITIAL));

    sm.process(START, &Ev).unwrap();
    assert!(sm.is(INNER));

    // The nested machine has no transition for this kind: the outer one is not consulted.
    assert!(matches!(sm.resolve(A_EVENT), Route::Substate));
    assert!(matches!(sm.process(A_EVENT, &Ev), ProcessResult::NoTransitions));
    assert!(sm.is(INNER));

    // The nested machine takes this one and terminates.
    assert!(sm.process(B_EVENT, &Ev).is_handled());
    assert!(sm.is(INNER));
    assert!(sm.get_vertex(INNER).sub.as_ref().map(|m| m.is(TERMINATION)) == Some(true));

    // Now the owner leaves the sub-machine vertex through its own transition.
    assert!(matches!(sm.resolve(A_EVENT), Route::Record(0)));
    assert!(sm.process(A_EVENT, &Ev).is_handled());
    assert!(sm.is(TERMINATION));
}

#[test]
fn sub_machine_vertex_hooks() {
    let inner: SubMachine = StateMachine::new(());
    let with_hooks = StateMachineVertex::new(inner, Plain);
    assert!(with_hooks.hooks.is_some());
    let inner: SubMachine = StateMachine::new(());
    let without = StateMachineVertex::empty(inner);
    assert!(without.hooks.is_none());
}

// ---------------------------------------------------------------------------------------------
// Results.

#[test]
fn process_result_accessors() {
    let handled: ProcessResult<u32, &str> = ProcessResult::Handled(7);
    assert!(handled.is_handled());
    assert_eq!(handled.ok(), Some(7));
    let none: ProcessResult<u32, &str> = ProcessResult::NoTransitions;
    assert!(!none.is_handled());
    assert_eq!(none.ok(), None);
    let err: ProcessResult<u32, &str> = ProcessResult::GuardErr("no");
    assert!(!err.is_handled());
    assert_eq!(err.ok(), None);
    assert_eq!(ProcessResult::<u32, &str>::Handled(3).unwrap(), 3);
}

#[test]
fn inner_result_map_and_conversion() {
    let fired: ProcessResultInner<u32, &str> = ProcessResultInner::HandledAndProcessEnd(4);
    match fired.map(|a| a * 10) {
        ProcessResultInner::HandledAndProcessEnd(a) => assert_eq!(a, 40),
        _ => panic!("expected a fired record"),
    }
    let skipped: ProcessResultInner<u32, &str> = ProcessResultInner::EventTypeNotSatisfy;
    assert!(matches!(skipped.map(|a| a + 1), ProcessResultInner::EventTypeNotSatisfy));
    let rejected: ProcessResultInner<u32, &str> = ProcessResultInner::GuardErr("no");
    assert!(matches!(rejected.map(|a| a + 1), ProcessResultInner::GuardErr("no")));

    assert!(matches!(ProcessResult::from(ProcessResultInner::<u32, &str>::HandledAndProcessEnd(1)), ProcessResult::Handled(1)));
    assert!(matches!(ProcessResult::from(ProcessResultInner::<u32, &str>::EventTypeNotSatisfy), ProcessResult::NoTransitions));
    assert!(matches!(ProcessResult::from(ProcessResultInner::<u32, &str>::NoTransitions), ProcessResult::NoTransitions));
    assert!(matches!(ProcessResult::from(ProcessResultInner::<u32, &str>::GuardErr("x")), ProcessResult::GuardErr("x")));
}

#[test]
fn routes_follow_the_tables() {
    let log: Log = Rc::new(RefCell::new(Vec::new()));
    let mut sm: RecMachine = StateMachine::new(0)
        .add_vertex(rec("first", &log))
        .add_vertex(rec("second", &log))
        .add_transition(INITIAL, START, FIRST, act("start", &log), vec![])
        .add_transition(FIRST, A_EVENT, SECOND, act("a", &log), vec![])
        .add_transition(FIRST, PUSH, SECOND, act("push", &log), vec![])
        .add_transition_forall(EXIT, FIRST, act("to first", &log), vec![])
        .add_transition_forall(EXIT, TERMINATION, act("bye", &log), vec![]);
    assert!(matches!(sm.resolve(START), Route::Record(0)));
    assert!(matches!(sm.resolve(PUSH), Route::Unmatched));
    assert!(matches!(sm.resolve(EXIT), Route::Forall(0)));
    sm.process(START, &Ev).unwrap();
    assert!(matches!(sm.resolve(PUSH), Route::Record(1)));
    assert!(matches!(sm.resolve(EXIT), Route::Forall(1)));
    sm.process(EXIT, &Ev).unwrap();
    assert!(sm.is(TERMINATION));
    assert!(matches!(sm.resolve(EXIT), Route::Unmatched));
    assert!(matches!(sm.resolve(START), Route::Unmatched));
}

#[test]
fn empty_guard_accepts_every_event() {
    let g: EmptyGuard<Ev, String> = EmptyGuard::new();
    assert_eq!(g.check(&Ev), Ok(()));
    let mut sm: StateMachine<EmptyVertex, (), Ev, EmptyGuard<Ev, ()>, EmptyForallAction, EmptyActionLoop, (), ()> =
        StateMachine::new(())
            .add_vertex(EmptyVertex::new())
            .add_transition(INITIAL, START, 2, EmptyForallAction::new(), EmptyGuard::new())
            .add_loop(2, A_EVENT, EmptyActionLoop::new(), EmptyGuard::new());
    assert!(sm.process(START, &Ev).is_handled());
    assert!(sm.is(2));
    for _ in 0..3 {
        assert!(sm.process(A_EVENT, &Ev).is_handled());
        assert!(sm.is(2));
    }
}
