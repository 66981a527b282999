use vstd::prelude::*;

verus! {

/// Modifier bit for the Shift key.
pub const SHIFT: u8 = 1;

/// Modifier bit for the Control key.
pub const CONTROL: u8 = 2;

/// Modifier bit for the Alt key.
pub const ALT: u8 = 4;

/// No modifier key held.
pub const NO_MODIFIERS: u8 = 0;

/// The character that ends the session when pressed with no modifier.
pub const QUIT_CHAR: char = 'q';

/// Which key was pressed.
#[derive(Clone, Copy, Debug, PartialEq, Eq, Structural)]
pub enum KeyCode {
    /// A key that produces a character.
    Char(char),
    /// Any other key (arrows, function keys, Enter, ...).
    Other,
}

/// A key press with the set of modifier keys held, as bits.
#[derive(Clone, Copy, Debug, PartialEq, Eq, Structural)]
pub struct KeyPress {
    pub code: KeyCode,
    pub modifiers: u8,
}

/// One event read from the terminal.
#[derive(Clone, Copy, Debug, PartialEq, Eq, Structural)]
pub enum InputEvent {
    Key(KeyPress),
    Mouse,
    /// The terminal was resized to (columns, rows).
    Resize(u16, u16),
}

/// Where the input loop stands.
#[derive(Clone, Copy, Debug, PartialEq, Eq, Structural)]
pub enum LoopState {
    Running,
    Terminated,
}

/// The one event that ends the loop: the quit character with no modifier.
pub open spec fn is_quit_spec(ev: InputEvent) -> bool {
    ev == InputEvent::Key(KeyPress { code: KeyCode::Char(QUIT_CHAR), modifiers: NO_MODIFIERS })
}

/// The loop's transition on one event: it terminates on the quit event and
/// stays where it is on any other.
pub open spec fn step_spec(state: LoopState, ev: InputEvent) -> LoopState {
    if state == LoopState::Running && is_quit_spec(ev) {
        LoopState::Terminated
    } else {
        state
    }
}

/// The state after the loop has seen `events` in order, from `state`.
pub open spec fn run_spec(state: LoopState, events: Seq<InputEvent>) -> LoopState
    decreases events.len(),
{
    if events.len() == 0 {
        state
    } else {
        run_spec(step_spec(state, events.first()), events.drop_first())
    }
}

/// `i` is the position of the first quit event of `events`.
pub open spec fn is_first_quit(events: Seq<InputEvent>, i: int) -> bool {
    &&& 0 <= i < events.len()
    &&& is_quit_spec(events[i])
    &&& forall|j: int| 0 <= j < i ==> !is_quit_spec(#[trigger] events[j])
}

/// Whether `ev` ends the input loop.
pub fn is_quit(ev: &InputEvent) -> (r: bool)
    ensures
        r == is_quit_spec(*ev),
{
    match ev {
        InputEvent::Key(KeyPress { code: KeyCode::Char(c), modifiers }) => *c == QUIT_CHAR
            && *modifiers == NO_MODIFIERS,
        _ => false,
    }
}

/// The loop's next state after `ev`.
pub fn step(state: LoopState, ev: &InputEvent) -> (r: LoopState)
    ensures
        r == step_spec(state, *ev),
{
    match state {
        LoopState::Running => if is_quit(ev) {
            LoopState::Terminated
        } else {
            LoopState::Running
        },
        LoopState::Terminated => LoopState::Terminated,
    }
}

/// Feeding two runs of events one after the other is feeding their
/// concatenation.
proof fn lemma_run_concat(state: LoopState, a: Seq<InputEvent>, b: Seq<InputEvent>)
    ensures
        run_spec(state, a + b) == run_spec(run_spec(state, a), b),
    decreases a.len(),
{
    if a.len() > 0 {
        assert((a + b).first() == a.first());
        assert((a + b).drop_first() =~= a.drop_first() + b);
        lemma_run_concat(step_spec(state, a.first()), a.drop_first(), b);
    } else {
        assert(a + b =~= b);
    }
}

/// Events with no quit event among them leave a running loop running.
proof fn lemma_run_without_quit(events: Seq<InputEvent>)
    requires
        forall|j: int| 0 <= j < events.len() ==> !is_quit_spec(#[trigger] events[j]),
    ensures
        run_spec(LoopState::Running, events) == LoopState::Running,
    decreases events.len(),
{
    if events.len() > 0 {
        assert(!is_quit_spec(events[0]));
        let rest = events.drop_first();
        assert forall|j: int| 0 <= j < rest.len() implies !is_quit_spec(#[trigger] rest[j]) by {
            assert(rest[j] == events[j + 1]);
        }
        lemma_run_without_quit(rest);
    }
}

/// The input loop consumes every event before the first quit event without
/// leaving `Running`, and terminates exactly on that event.
pub proof fn loop_ends_at_first_quit(events: Seq<InputEvent>, i: int)
    requires
        is_first_quit(events, i),
    ensures
        forall|k: int|
            0 <= k <= i ==> run_spec(LoopState::Running, #[trigger] events.take(k))
                == LoopState::Running,
        run_spec(LoopState::Running, events.take(i + 1)) == LoopState::Terminated,
{
    assert forall|k: int| 0 <= k <= i implies run_spec(
        LoopState::Running,
        #[trigger] events.take(k),
    ) == LoopState::Running by {
        let pre = events.take(k);
        assert forall|j: int| 0 <= j < pre.len() implies !is_quit_spec(#[trigger] pre[j]) by {
            assert(pre[j] == events[j]);
        }
        lemma_run_without_quit(pre);
    }
    let pre = events.take(i);
    let last = seq![events[i]];
    assert(events.take(i + 1) =~= pre + last);
    lemma_run_concat(LoopState::Running, pre, last);
    assert(run_spec(LoopState::Running, events.take(i)) == LoopState::Running);
    assert(last.drop_first() =~= Seq::<InputEvent>::empty());
    assert(run_spec(LoopState::Terminated, last.drop_first()) == LoopState::Terminated);
    assert(run_spec(LoopState::Running, last) == LoopState::Terminated);
}

/// A key press with any modifier held never ends the loop, whatever the key.
pub proof fn modifiers_never_quit(c: char, modifiers: u8)
    requires
        modifiers != NO_MODIFIERS,
    ensures
        step_spec(
            LoopState::Running,
            InputEvent::Key(KeyPress { code: KeyCode::Char(c), modifiers }),
        ) == LoopState::Running,
{
}

/// Reads `events` as the input loop would: returns the position of the event
/// on which it terminates, or `None` when no event ends it.
pub fn run_until_quit(events: &Vec<InputEvent>) -> (r: Option<usize>)
    ensures
        match r {
            Some(i) => is_first_quit(events@, i as int),
            None => forall|j: int| 0 <= j < events@.len() ==> !is_quit_spec(#[trigger] events@[j]),
        },
{
    let mut i: usize = 0;
    while i < events.len()
        invariant
            i <= events@.len(),
            forall|j: int| 0 <= j < i ==> !is_quit_spec(#[trigger] events@[j]),
        decreases events@.len() - i,
    {
        if is_quit(&events[i]) {
            return Some(i);
        }
        i = i + 1;
    }
    None
}

} // verus!
