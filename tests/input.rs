use hexhacks::input::{
    is_quit, run_until_quit, step, InputEvent, KeyCode, KeyPress, LoopState, ALT, CONTROL,
    NO_MODIFIERS, SHIFT,
};
use hexhacks::screen::{ScreenManager, TermOp};

fn key(c: char, modifiers: u8) -> InputEvent {
    InputEvent::Key(KeyPress { code: KeyCode::Char(c), modifiers })
}

#[test]
fn transition_table_terminates_on_bare_q() {
    let events = vec![key('a', NO_MODIFIERS), key('b', CONTROL), InputEvent::Resize(80, 24), key('q', NO_MODIFIERS)];
    let mut state = LoopState::Running;
    for ev in &events[..3] {
        state = step(state, ev);
        assert_eq!(state, LoopState::Running);
    }
    assert_eq!(step(state, &events[3]), LoopState::Terminated);
    assert_eq!(run_until_quit(&events), Some(3));
}

#[test]
fn shift_q_does_not_quit() {
    let ev = key('q', SHIFT);
    assert!(!is_quit(&ev));
    assert_eq!(step(LoopState::Running, &ev), LoopState::Running);
    assert_eq!(run_until_quit(&vec![ev]), None);
}

#[test]
fn modified_q_never_quits() {
    assert!(!is_quit(&key('q', CONTROL)));
    assert!(!is_quit(&key('q', ALT)));
    assert!(!is_quit(&key('q', SHIFT | CONTROL)));
    assert!(!is_quit(&key('Q', NO_MODIFIERS)));
}

#[test]
fn other_events_never_quit() {
    assert!(!is_quit(&InputEvent::Mouse));
    assert!(!is_quit(&InputEvent::Resize(1, 1)));
    assert!(!is_quit(&InputEvent::Key(KeyPress { code: KeyCode::Other, modifiers: NO_MODIFIERS })));
    assert!(is_quit(&key('q', NO_MODIFIERS)));
}

#[test]
fn terminated_loop_stays_terminated() {
    assert_eq!(step(LoopState::Terminated, &key('a', NO_MODIFIERS)), LoopState::Terminated);
}

#[test]
fn loop_stops_at_first_of_several_quits() {
    let events = vec![key('x', NO_MODIFIERS), key('q', NO_MODIFIERS), key('q', NO_MODIFIERS)];
    assert_eq!(run_until_quit(&events), Some(1));
    assert_eq!(run_until_quit(&Vec::new()), None);
}

#[test]
fn session_end_to_end_on_simulated_terminal() {
    let events = vec![key('a', NO_MODIFIERS), InputEvent::Resize(100, 40), key('q', SHIFT), key('q', NO_MODIFIERS)];
    let mut recorded: Vec<TermOp> = Vec::new();
    let (mut screen, setup) = ScreenManager::init(true);
    recorded.extend(setup);
    let banner = screen.banner_ops().expect("interactive terminal");
    recorded.extend(banner);
    let mut consumed = 0;
    let mut state = LoopState::Running;
    for ev in &events {
        consumed += 1;
        state = step(state, ev);
        if state == LoopState::Terminated {
            break;
        }
    }
    assert_eq!(state, LoopState::Terminated);
    assert_eq!(consumed, events.len());
    recorded.extend(screen.cleanup());
    recorded.extend(screen.cleanup());
    assert_eq!(recorded.iter().filter(|op| **op == TermOp::PrintBanner).count(), 1);
    let n = recorded.len();
    assert_eq!(
        recorded[n - 3..].to_vec(),
        vec![TermOp::DisableRawMode, TermOp::ShowCursor, TermOp::LeaveAlternateScreen]
    );
}
