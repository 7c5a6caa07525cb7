use kime_xim::action::{Action, DRAW_STATUS_DELETE, DRAW_STATUS_REPLACE};
use kime_xim::encode::encode_char;
use kime_xim::preedit::PreeditState;
use kime_xim::result::{map_result, EngineResult};

fn draw(chg_length: u32, ch: char) -> Action {
    Action::PreeditDraw { chg_length, text: encode_char(ch), status: 2 }
}

fn erase(chg_length: u32) -> Action {
    Action::PreeditDraw { chg_length, text: Vec::new(), status: 1 }
}

fn active_after(ch: char) -> PreeditState {
    let mut state = PreeditState::new();
    state.update_preedit(ch, true);
    state
}

#[test]
fn draw_status_values() {
    assert_eq!(DRAW_STATUS_DELETE, 1);
    assert_eq!(DRAW_STATUS_REPLACE, 2);
}

#[test]
fn new_state_is_idle() {
    let state = PreeditState::new();
    assert!(!state.preedit_started());
    assert_eq!(state.last_preedit_length(), 0);
}

#[test]
fn update_from_idle_starts_then_draws() {
    let mut state = PreeditState::new();
    let actions = state.update_preedit('ㄱ', true);
    assert_eq!(
        actions,
        vec![
            Action::PreeditStart,
            Action::PreeditDraw {
                chg_length: 0,
                text: vec![0x1B, 0x25, 0x47, 0xE3, 0x84, 0xB1, 0x1B, 0x25, 0x40],
                status: 2,
            },
        ]
    );
    assert!(state.preedit_started());
    assert_eq!(state.last_preedit_length(), 9);
}

#[test]
fn update_from_active_only_draws() {
    let mut state = active_after('ㄱ');
    let actions = state.update_preedit('a', true);
    assert_eq!(actions, vec![draw(9, 'a')]);
    assert!(state.preedit_started());
    assert_eq!(state.last_preedit_length(), 7);
    let actions = state.update_preedit('😀', true);
    assert_eq!(actions, vec![draw(7, '😀')]);
    assert_eq!(state.last_preedit_length(), 10);
}

#[test]
fn last_length_is_six_more_than_utf8_length() {
    for (ch, expected) in [('a', 7u32), ('é', 8), ('한', 9), ('😀', 10)] {
        let state = active_after(ch);
        assert_eq!(state.last_preedit_length(), expected);
    }
}

#[test]
fn clear_from_active_erases_then_is_done() {
    let mut state = active_after('가');
    let actions = state.clear_preedit(true);
    assert_eq!(actions, vec![erase(9), Action::PreeditDone]);
    assert!(!state.preedit_started());
    assert_eq!(state.last_preedit_length(), 0);
}

#[test]
fn clear_from_idle_does_nothing() {
    let mut state = PreeditState::new();
    let actions = state.clear_preedit(true);
    assert_eq!(actions, Vec::<Action>::new());
    assert!(!state.preedit_started());
    assert_eq!(state.last_preedit_length(), 0);
}

#[test]
fn start_is_sent_again_after_a_clear() {
    let mut state = active_after('가');
    state.clear_preedit(true);
    let actions = state.update_preedit('ㄴ', true);
    assert_eq!(actions, vec![Action::PreeditStart, draw(0, 'ㄴ')]);
}

#[test]
fn without_callbacks_update_is_dropped() {
    let mut state = PreeditState::new();
    let actions = state.update_preedit('ㄱ', false);
    assert_eq!(actions, Vec::<Action>::new());
    assert!(!state.preedit_started());
    assert_eq!(state.last_preedit_length(), 0);
}

#[test]
fn without_callbacks_clear_is_dropped() {
    let mut state = active_after('ㄱ');
    let actions = state.clear_preedit(false);
    assert_eq!(actions, Vec::<Action>::new());
    assert!(state.preedit_started());
    assert_eq!(state.last_preedit_length(), 9);
}

#[test]
fn map_bypass_forwards_the_event() {
    let mut state = PreeditState::new();
    assert_eq!(map_result(&mut state, EngineResult::Bypass, true), vec![Action::ForwardEvent]);
    assert!(!state.preedit_started());
}

#[test]
fn map_commit_commits_one_char() {
    let mut state = active_after('ㄱ');
    assert_eq!(
        map_result(&mut state, EngineResult::Commit('가'), true),
        vec![Action::Commit(vec![0x1B, 0x25, 0x47, 0xEA, 0xB0, 0x80, 0x1B, 0x25, 0x40])]
    );
    assert!(state.preedit_started());
    assert_eq!(state.last_preedit_length(), 9);
}

#[test]
fn map_commit_bypass_commits_then_forwards() {
    let mut state = PreeditState::new();
    assert_eq!(
        map_result(&mut state, EngineResult::CommitBypass('a'), true),
        vec![
            Action::Commit(vec![0x1B, 0x25, 0x47, 0x61, 0x1B, 0x25, 0x40]),
            Action::ForwardEvent,
        ]
    );
}

#[test]
fn map_commit_commit_is_a_single_commit() {
    let mut state = PreeditState::new();
    assert_eq!(
        map_result(&mut state, EngineResult::CommitCommit('a', 'b'), true),
        vec![Action::Commit(vec![0x1B, 0x25, 0x47, 0x61, 0x62, 0x1B, 0x25, 0x40])]
    );
    assert!(!state.preedit_started());
}

#[test]
fn map_commit_preedit_commits_before_it_draws() {
    let mut state = active_after('ㄱ');
    let actions = map_result(&mut state, EngineResult::CommitPreedit('가', 'ㄴ'), true);
    assert_eq!(actions, vec![Action::Commit(encode_char('가')), draw(9, 'ㄴ')]);
    assert_eq!(state.last_preedit_length(), 9);

    let mut idle = PreeditState::new();
    let actions = map_result(&mut idle, EngineResult::CommitPreedit('a', 'b'), true);
    assert_eq!(
        actions,
        vec![Action::Commit(encode_char('a')), Action::PreeditStart, draw(0, 'b')]
    );
    assert!(idle.preedit_started());
    assert_eq!(idle.last_preedit_length(), 7);
}

#[test]
fn map_commit_preedit_without_callbacks_still_commits() {
    let mut state = PreeditState::new();
    let actions = map_result(&mut state, EngineResult::CommitPreedit('가', 'ㄴ'), false);
    assert_eq!(actions, vec![Action::Commit(encode_char('가'))]);
    assert!(!state.preedit_started());
}

#[test]
fn map_preedit_updates_the_display() {
    let mut state = PreeditState::new();
    let actions = map_result(&mut state, EngineResult::Preedit('ㄱ'), true);
    assert_eq!(actions, vec![Action::PreeditStart, draw(0, 'ㄱ')]);
    assert!(state.preedit_started());
    assert_eq!(state.last_preedit_length(), 9);
}

#[test]
fn map_toggle_refreshes_the_engine() {
    let mut state = active_after('ㄱ');
    assert_eq!(
        map_result(&mut state, EngineResult::ToggleHangul, true),
        vec![Action::RefreshEngine]
    );
    assert!(state.preedit_started());
    assert_eq!(state.last_preedit_length(), 9);
}

#[test]
fn map_clear_preedit_clears_the_display() {
    let mut state = active_after('ㄱ');
    assert_eq!(
        map_result(&mut state, EngineResult::ClearPreedit, true),
        vec![erase(9), Action::PreeditDone]
    );
    assert!(!state.preedit_started());
    assert_eq!(state.last_preedit_length(), 0);
}
