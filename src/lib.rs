//! A hierarchical, guarded finite-state-machine engine.
//!
//! Vertices, transitions and events are identified by plain indices: a machine holds one slot per
//! vertex, a table of transitions keyed by source vertex, and a list of transitions that apply from
//! any vertex. `StateMachine::process` dispatches one event to at most one transition.
pub mod action;
pub mod guard;
pub mod hmap;
pub mod laws;
pub mod process_event;
pub mod process_result;
pub mod sm;
pub mod transition;
pub mod vertex;

pub use action::{Action, ActionLoop};
pub use guard::Guard;
pub use process_event::ProcessEvent;
pub use process_result::{ProcessResult, ProcessResultInner, ProcessResultSubstate};
pub use sm::{CurrentStateIs, StateMachine};
pub use vertex::{EntryVertex, ExitVertex, InitialPseudoState, TerminationPseudoState, INITIAL, TERMINATION};
