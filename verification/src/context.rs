//! The record kept for one input context: its composition engine and its
//! preedit state.

use vstd::prelude::*;
use crate::preedit::{Phase, PreeditState};

verus! {

/// The state of one input context. The engine is whatever the caller
/// composes with; nothing here looks inside it.
pub struct KimeInputContext<E> {
    pub engine: E,
    pub preedit: PreeditState,
}

/// The mathematical value of a record: its engine and the state of its
/// preedit display.
pub ghost struct ContextView<E> {
    pub engine: E,
    pub phase: Phase,
}

impl<E> View for KimeInputContext<E> {
    type V = ContextView<E>;

    open spec fn view(&self) -> ContextView<E> {
        ContextView { engine: self.engine, phase: self.preedit@ }
    }
}

impl<E> KimeInputContext<E> {
    /// The record of a context that was just created: it owns `engine`, and
    /// no preedit display is open.
    pub fn new(engine: E) -> (context: Self)
        ensures
            context@ == (ContextView { engine, phase: Phase::Idle }),
    {
        KimeInputContext { engine, preedit: PreeditState::new() }
    }
}

} // verus!
