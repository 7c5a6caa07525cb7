//! What the server must do for a client once a message has been handled.

use vstd::prelude::*;
use crate::encode::{encode_char, encode_pair, encoded_char, encoded_pair};

verus! {

/// Status of a draw instruction that only deletes what was shown.
pub const DRAW_STATUS_DELETE: u32 = 1;

/// Status of a draw instruction that inserts or replaces text.
pub const DRAW_STATUS_REPLACE: u32 = 2;

/// One step the server takes towards the client or the engine.
#[derive(Clone, Debug, PartialEq, Eq)]
pub enum Action {
    /// Hand the raw key event back to the client unchanged.
    ForwardEvent,
    /// Commit the wire text to the client.
    Commit(Vec<u8>),
    /// Open the preedit display.
    PreeditStart,
    /// Replace the last `chg_length` bytes of the preedit display by `text`.
    PreeditDraw { chg_length: u32, text: Vec<u8>, status: u32 },
    /// Close the preedit display.
    PreeditDone,
    /// Tell the engine to refresh its composition-mode state.
    RefreshEngine,
}

/// The mathematical value of an `Action`.
pub ghost enum ActionView {
    ForwardEvent,
    Commit(Seq<u8>),
    PreeditStart,
    PreeditDraw { chg_length: u32, text: Seq<u8>, status: u32 },
    PreeditDone,
    RefreshEngine,
}

impl View for Action {
    type V = ActionView;

    open spec fn view(&self) -> ActionView {
        match *self {
            Action::ForwardEvent => ActionView::ForwardEvent,
            Action::Commit(text) => ActionView::Commit(text@),
            Action::PreeditStart => ActionView::PreeditStart,
            Action::PreeditDraw { chg_length, text, status } => ActionView::PreeditDraw {
                chg_length,
                text: text@,
                status,
            },
            Action::PreeditDone => ActionView::PreeditDone,
            Action::RefreshEngine => ActionView::RefreshEngine,
        }
    }
}

/// The values of a sequence of actions, in order.
pub open spec fn action_views(actions: Seq<Action>) -> Seq<ActionView> {
    Seq::new(actions.len(), |i: int| actions[i]@)
}

impl ActionView {
    /// True of the three instructions that touch the preedit display.
    pub open spec fn is_preedit(self) -> bool {
        self is PreeditStart || self is PreeditDraw || self is PreeditDone
    }
}

/// The commit of one character: its wire text, sent as one string.
pub fn commit_ch(ch: char) -> (action: Action)
    ensures
        action@ == ActionView::Commit(encoded_char(ch)),
{
    Action::Commit(encode_char(ch))
}

/// The commit of two characters together: one string that holds both, the
/// first before the second.
pub fn commit_ch2(ch1: char, ch2: char) -> (action: Action)
    ensures
        action@ == ActionView::Commit(encoded_pair(ch1, ch2)),
{
    Action::Commit(encode_pair(ch1, ch2))
}

} // verus!
