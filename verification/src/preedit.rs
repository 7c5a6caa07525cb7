//! The preedit state machine of one input context: whether a preedit display
//! is open on the client, and how many bytes the last draw put there.

use vstd::prelude::*;
use crate::action::{action_views, Action, ActionView, DRAW_STATUS_DELETE, DRAW_STATUS_REPLACE};
use crate::encode::{encode_char, encoded_char, lemma_utf8_of_len, utf8_len};

verus! {

/// The state of the preedit display as the client sees it.
pub ghost enum Phase {
    /// No preedit display is open.
    Idle,
    /// A preedit display is open and shows `last_length` bytes of wire text.
    Active { last_length: u32 },
}

impl Phase {
    /// An open display shows at least one byte.
    pub open spec fn wf(self) -> bool {
        self is Active ==> self.change_length() >= 1
    }

    /// The number of bytes the next draw has to replace.
    pub open spec fn change_length(self) -> u32 {
        match self {
            Phase::Idle => 0,
            Phase::Active { last_length } => last_length,
        }
    }

    /// The draw instruction that puts `ch` in place of what is shown.
    pub open spec fn draw_of(self, ch: char) -> ActionView {
        ActionView::PreeditDraw {
            chg_length: self.change_length(),
            text: encoded_char(ch),
            status: 2,
        }
    }

    /// The draw instruction that erases what is shown.
    pub open spec fn erase_of(self) -> ActionView {
        ActionView::PreeditDraw {
            chg_length: self.change_length(),
            text: Seq::<u8>::empty(),
            status: 1,
        }
    }

    /// The instructions of a preedit update with `ch`. A client without
    /// preedit callbacks gets none.
    pub open spec fn update_actions(self, ch: char, preedit_callbacks: bool) -> Seq<ActionView> {
        if !preedit_callbacks {
            Seq::<ActionView>::empty()
        } else if self is Idle {
            seq![ActionView::PreeditStart, self.draw_of(ch)]
        } else {
            seq![self.draw_of(ch)]
        }
    }

    /// The state after a preedit update with `ch`.
    pub open spec fn after_update(self, ch: char, preedit_callbacks: bool) -> Phase {
        if preedit_callbacks {
            Phase::Active { last_length: (6 + utf8_len(ch)) as u32 }
        } else {
            self
        }
    }

    /// The instructions of a preedit clear. A client without preedit
    /// callbacks gets none, and nothing is sent where no display is open.
    pub open spec fn clear_actions(self, preedit_callbacks: bool) -> Seq<ActionView> {
        if preedit_callbacks && self is Active {
            seq![self.erase_of(), ActionView::PreeditDone]
        } else {
            Seq::<ActionView>::empty()
        }
    }

    /// The state after a preedit clear.
    pub open spec fn after_clear(self, preedit_callbacks: bool) -> Phase {
        if preedit_callbacks {
            Phase::Idle
        } else {
            self
        }
    }
}

/// An update while no display is open sends exactly a start and then a draw;
/// the draw replaces nothing and carries the wire text of `ch`, and afterwards
/// the display is open with the length of that wire text.
pub proof fn lemma_update_from_idle(ch: char)
    ensures
        Phase::Idle.update_actions(ch, true) == seq![
            ActionView::PreeditStart,
            ActionView::PreeditDraw { chg_length: 0, text: encoded_char(ch), status: 2 },
        ],
        Phase::Idle.after_update(ch, true) == (Phase::Active {
            last_length: encoded_char(ch).len() as u32,
        }),
        encoded_char(ch).len() == 6 + utf8_len(ch),
{
}

/// An update while a display is open sends exactly one draw and no start; the
/// draw replaces as many bytes as the last one showed, and afterwards the
/// length is that of the new wire text.
pub proof fn lemma_update_from_active(last_length: u32, ch: char)
    ensures
        (Phase::Active { last_length }).update_actions(ch, true) == seq![
            ActionView::PreeditDraw { chg_length: last_length, text: encoded_char(ch), status: 2 },
        ],
        (Phase::Active { last_length }).after_update(ch, true) == (Phase::Active {
            last_length: encoded_char(ch).len() as u32,
        }),
{
}

/// A clear while a display is open sends a draw that erases as many bytes as
/// the last one showed and carries no text, and then a done; afterwards no
/// display is open and the length is zero.
pub proof fn lemma_clear_from_active(last_length: u32)
    ensures
        (Phase::Active { last_length }).clear_actions(true) == seq![
            ActionView::PreeditDraw { chg_length: last_length, text: Seq::<u8>::empty(), status: 1 },
            ActionView::PreeditDone,
        ],
        (Phase::Active { last_length }).after_clear(true) == Phase::Idle,
        (Phase::Active { last_length }).after_clear(true).change_length() == 0,
{
}

/// Updates and clears keep the state well formed: a display that is open
/// always shows at least one byte, and a length is kept only while one is
/// open.
pub proof fn lemma_phase_stays_well_formed(phase: Phase, ch: char, preedit_callbacks: bool)
    requires
        phase.wf(),
    ensures
        phase.after_update(ch, preedit_callbacks).wf(),
        phase.after_clear(preedit_callbacks).wf(),
        phase is Idle ==> phase.change_length() == 0,
{
}

/// A client that did not negotiate preedit callbacks is sent nothing, and the
/// state stays as it was.
pub proof fn lemma_without_callbacks(phase: Phase, ch: char)
    ensures
        phase.update_actions(ch, false).len() == 0,
        phase.after_update(ch, false) == phase,
        phase.clear_actions(false).len() == 0,
        phase.after_clear(false) == phase,
{
}

/// The preedit bookkeeping of one input context.
#[derive(Clone, Copy, Debug)]
pub struct PreeditState {
    started: bool,
    last_length: u32,
}

impl View for PreeditState {
    type V = Phase;

    closed spec fn view(&self) -> Phase {
        if self.started {
            Phase::Active { last_length: self.last_length }
        } else {
            Phase::Idle
        }
    }
}

impl PreeditState {
    /// A length is kept exactly while a display is open.
    #[verifier::type_invariant]
    spec fn consistent(&self) -> bool {
        self.started == (self.last_length > 0)
    }

    /// The state of a fresh input context: no display is open.
    pub fn new() -> (state: PreeditState)
        ensures
            state@ == Phase::Idle,
    {
        PreeditState { started: false, last_length: 0 }
    }

    /// True iff a preedit display is open on the client.
    pub fn preedit_started(&self) -> (started: bool)
        ensures
            started == (self@ is Active),
    {
        self.started
    }

    /// The byte length of the wire text that the last draw showed; zero when
    /// no display is open, and never zero when one is.
    pub fn last_preedit_length(&self) -> (length: u32)
        ensures
            length == self@.change_length(),
            self@.wf(),
    {
        proof {
            use_type_invariant(self);
        }
        self.last_length
    }

    /// Shows `ch` as the preedit text, in place of what was shown before, and
    /// returns the instructions for the client in the order to send them.
    pub fn update_preedit(&mut self, ch: char, preedit_callbacks: bool) -> (actions: Vec<Action>)
        ensures
            action_views(actions@) == old(self)@.update_actions(ch, preedit_callbacks),
            final(self)@ == old(self)@.after_update(ch, preedit_callbacks),
    {
        let mut actions: Vec<Action> = Vec::new();
        if !preedit_callbacks {
            assert(action_views(actions@) =~= old(self)@.update_actions(ch, preedit_callbacks));
            return actions;
        }
        proof {
            use_type_invariant(&*self);
            lemma_utf8_of_len(ch);
        }
        if !self.started {
            actions.push(Action::PreeditStart);
        }
        let text = encode_char(ch);
        let length: u32 = text.len() as u32;
        actions.push(
            Action::PreeditDraw {
                chg_length: self.last_length,
                text,
                status: DRAW_STATUS_REPLACE,
            },
        );
        *self = PreeditState { started: true, last_length: length };
        assert(action_views(actions@) =~= old(self)@.update_actions(ch, preedit_callbacks));
        actions
    }

    /// Discards the preedit text and closes the display, and returns the
    /// instructions for the client in the order to send them.
    pub fn clear_preedit(&mut self, preedit_callbacks: bool) -> (actions: Vec<Action>)
        ensures
            action_views(actions@) == old(self)@.clear_actions(preedit_callbacks),
            final(self)@ == old(self)@.after_clear(preedit_callbacks),
    {
        let mut actions: Vec<Action> = Vec::new();
        proof {
            use_type_invariant(&*self);
        }
        if preedit_callbacks && self.started {
            actions.push(
                Action::PreeditDraw {
                    chg_length: self.last_length,
                    text: Vec::new(),
                    status: DRAW_STATUS_DELETE,
                },
            );
            actions.push(Action::PreeditDone);
            *self = PreeditState { started: false, last_length: 0 };
        }
        assert(action_views(actions@) =~= old(self)@.clear_actions(preedit_callbacks));
        actions
    }
}

} // verus!
