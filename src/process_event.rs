//! The interface for processing events, shared by every machine.
use crate::process_result::ProcessResult;
use vstd::prelude::*;

verus! {

/// Something that processes events of type `E`, dispatched by their kind.
pub trait ProcessEvent<E, Answer, GErr> {
    /// The condition under which events may be processed.
    spec fn ready(&self) -> bool;

    fn process(&mut self, kind: usize, event: &E) -> ProcessResult<Answer, GErr>
        requires
            old(self).ready(),
    ;
}

} // verus!
