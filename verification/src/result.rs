//! What the composition engine answers to a key press, and the actions each
//! answer stands for.

use vstd::prelude::*;
use crate::action::{action_views, commit_ch, commit_ch2, Action, ActionView};
use crate::encode::{encoded_char, encoded_pair};
use crate::preedit::{Phase, PreeditState};

verus! {

/// The engine's answer to one key press.
#[derive(Clone, Copy, Debug, PartialEq, Eq)]
pub enum EngineResult {
    /// The key means nothing to the composition.
    Bypass,
    /// One character is final.
    Commit(char),
    /// One character is final, and the key goes on to the client.
    CommitBypass(char),
    /// Two characters are final together.
    CommitCommit(char, char),
    /// The first character is final, the second is the new preedit text.
    CommitPreedit(char, char),
    /// The character is the new preedit text.
    Preedit(char),
    /// The composition mode was toggled.
    ToggleHangul,
    /// The preedit text is discarded.
    ClearPreedit,
}

/// The actions that an engine result stands for, in the order to take them,
/// for a context whose preedit display is in `phase`.
pub open spec fn result_actions(phase: Phase, result: EngineResult, preedit_callbacks: bool) -> Seq<
    ActionView,
> {
    match result {
        EngineResult::Bypass => seq![ActionView::ForwardEvent],
        EngineResult::Commit(ch) => seq![ActionView::Commit(encoded_char(ch))],
        EngineResult::CommitBypass(ch) => seq![
            ActionView::Commit(encoded_char(ch)),
            ActionView::ForwardEvent,
        ],
        EngineResult::CommitCommit(ch1, ch2) => seq![ActionView::Commit(encoded_pair(ch1, ch2))],
        EngineResult::CommitPreedit(ch1, ch2) => seq![ActionView::Commit(encoded_char(ch1))]
            + phase.update_actions(ch2, preedit_callbacks),
        EngineResult::Preedit(ch) => phase.update_actions(ch, preedit_callbacks),
        EngineResult::ToggleHangul => seq![ActionView::RefreshEngine],
        EngineResult::ClearPreedit => phase.clear_actions(preedit_callbacks),
    }
}

/// The state of the preedit display after an engine result was acted on.
pub open spec fn result_phase(phase: Phase, result: EngineResult, preedit_callbacks: bool) -> Phase {
    match result {
        EngineResult::CommitPreedit(_, ch2) => phase.after_update(ch2, preedit_callbacks),
        EngineResult::Preedit(ch) => phase.after_update(ch, preedit_callbacks),
        EngineResult::ClearPreedit => phase.after_clear(preedit_callbacks),
        _ => phase,
    }
}

/// Turns an engine result into the actions it stands for and brings the
/// preedit state up to date with them.
pub fn map_result(preedit: &mut PreeditState, result: EngineResult, preedit_callbacks: bool) -> (actions:
    Vec<Action>)
    ensures
        action_views(actions@) == result_actions(old(preedit)@, result, preedit_callbacks),
        final(preedit)@ == result_phase(old(preedit)@, result, preedit_callbacks),
{
    let mut actions: Vec<Action> = Vec::new();
    match result {
        EngineResult::Bypass => {
            actions.push(Action::ForwardEvent);
        },
        EngineResult::Commit(ch) => {
            actions.push(commit_ch(ch));
        },
        EngineResult::CommitBypass(ch) => {
            actions.push(commit_ch(ch));
            actions.push(Action::ForwardEvent);
        },
        EngineResult::CommitCommit(ch1, ch2) => {
            actions.push(commit_ch2(ch1, ch2));
        },
        EngineResult::CommitPreedit(ch1, ch2) => {
            actions.push(commit_ch(ch1));
            let mut drawn = preedit.update_preedit(ch2, preedit_callbacks);
            actions.append(&mut drawn);
        },
        EngineResult::Preedit(ch) => {
            actions = preedit.update_preedit(ch, preedit_callbacks);
        },
        EngineResult::ToggleHangul => {
            actions.push(Action::RefreshEngine);
        },
        EngineResult::ClearPreedit => {
            actions = preedit.clear_preedit(preedit_callbacks);
        },
    }
    assert(action_views(actions@) =~= result_actions(old(preedit)@, result, preedit_callbacks));
    actions
}

/// Whatever the engine answers, the preedit state stays well formed, and only
/// an answer that updates or clears the preedit text can change it.
pub proof fn lemma_result_keeps_phase_well_formed(
    phase: Phase,
    result: EngineResult,
    preedit_callbacks: bool,
)
    requires
        phase.wf(),
    ensures
        result_phase(phase, result, preedit_callbacks).wf(),
        !(result is CommitPreedit || result is Preedit || result is ClearPreedit) ==> result_phase(
            phase,
            result,
            preedit_callbacks,
        ) == phase,
{
}

/// The first character of a commit-and-preedit result is committed before any
/// instruction for the preedit display: the commit comes first, and whatever
/// follows it is the preedit update with the second character.
pub proof fn lemma_commit_precedes_preedit(
    phase: Phase,
    ch1: char,
    ch2: char,
    preedit_callbacks: bool,
)
    ensures
        ({
            let actions = result_actions(
                phase,
                EngineResult::CommitPreedit(ch1, ch2),
                preedit_callbacks,
            );
            &&& actions.len() >= 1
            &&& actions[0] == ActionView::Commit(encoded_char(ch1))
            &&& actions.subrange(1, actions.len() as int) == phase.update_actions(
                ch2,
                preedit_callbacks,
            )
            &&& forall|i: int|
                0 <= i < actions.len() && (#[trigger] actions[i]).is_preedit() ==> 0 < i
            &&& forall|i: int| 1 <= i < actions.len() ==> (#[trigger] actions[i]).is_preedit()
        }),
{
    let actions = result_actions(phase, EngineResult::CommitPreedit(ch1, ch2), preedit_callbacks);
    assert(actions.subrange(1, actions.len() as int) =~= phase.update_actions(
        ch2,
        preedit_callbacks,
    ));
}

} // verus!
