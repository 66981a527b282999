use vstd::prelude::*;

verus! {

/// One terminal-control operation, performed by whoever owns the real
/// terminal device.
#[derive(Clone, Copy, Debug, PartialEq, Eq, Structural)]
pub enum TermOp {
    EnterAlternateScreen,
    ClearAll,
    MoveToOrigin,
    EnableRawMode,
    HideCursor,
    PrintBanner,
    DisableRawMode,
    ShowCursor,
    LeaveAlternateScreen,
}

/// Where the terminal stands with respect to the alternate screen.
#[derive(Clone, Copy, Debug, PartialEq, Eq, Structural)]
pub enum ScreenState {
    /// Setup found no interactive terminal and changed nothing.
    NotEntered,
    /// The alternate screen and raw mode are active.
    Entered,
    /// The terminal was put back as it was; nothing is left to undo.
    Restored,
}

/// The operations that enter the alternate screen in raw mode.
pub open spec fn setup_sequence() -> Seq<TermOp> {
    seq![TermOp::EnterAlternateScreen, TermOp::ClearAll, TermOp::MoveToOrigin, TermOp::EnableRawMode]
}

/// The operations that undo the setup, in order.
pub open spec fn restore_sequence() -> Seq<TermOp> {
    seq![TermOp::DisableRawMode, TermOp::ShowCursor, TermOp::LeaveAlternateScreen]
}

/// The operations that show the banner once the screen is set up.
pub open spec fn banner_sequence() -> Seq<TermOp> {
    seq![TermOp::HideCursor, TermOp::PrintBanner]
}

/// The state and the operations that setup yields.
pub open spec fn init_spec(is_tty: bool) -> (ScreenState, Seq<TermOp>) {
    if is_tty {
        (ScreenState::Entered, setup_sequence())
    } else {
        (ScreenState::NotEntered, Seq::empty())
    }
}

/// Whether setup activated the alternate screen, whatever happened since.
pub open spec fn is_tty_spec(s: ScreenState) -> bool {
    s != ScreenState::NotEntered
}

/// One restore request: the state after it and the operations it asks for.
pub open spec fn cleanup_spec(s: ScreenState) -> (ScreenState, Seq<TermOp>) {
    match s {
        ScreenState::Entered => (ScreenState::Restored, restore_sequence()),
        _ => (s, Seq::empty()),
    }
}

/// The state after `n` restore requests made one after the other.
pub open spec fn state_after_cleanups(s: ScreenState, n: nat) -> ScreenState
    decreases n,
{
    if n == 0 {
        s
    } else {
        state_after_cleanups(cleanup_spec(s).0, (n - 1) as nat)
    }
}

/// All operations asked for by `n` restore requests, in order.
pub open spec fn ops_of_cleanups(s: ScreenState, n: nat) -> Seq<TermOp>
    decreases n,
{
    if n == 0 {
        Seq::empty()
    } else {
        cleanup_spec(s).1 + ops_of_cleanups(cleanup_spec(s).0, (n - 1) as nat)
    }
}

/// From any state, any number of restore requests asks for the restore
/// sequence exactly once if the alternate screen was active and at least
/// one request was made, and for nothing otherwise.
pub proof fn lemma_restore_at_most_once(s: ScreenState, n: nat)
    ensures
        ops_of_cleanups(s, n) == (if s == ScreenState::Entered && n > 0 {
            restore_sequence()
        } else {
            Seq::<TermOp>::empty()
        }),
        state_after_cleanups(s, n) == (if s == ScreenState::Entered && n > 0 {
            ScreenState::Restored
        } else {
            s
        }),
    decreases n,
{
    if n > 0 {
        let next = cleanup_spec(s).0;
        lemma_restore_at_most_once(next, (n - 1) as nat);
        assert(ops_of_cleanups(s, n) =~= (if s == ScreenState::Entered {
            restore_sequence()
        } else {
            Seq::<TermOp>::empty()
        }));
    }
}

/// However many times a session asks to restore the terminal, the restore
/// sequence runs exactly once when setup found an interactive terminal
/// (counting the request made when the session ends, so `n > 0`), and never
/// when it did not.
pub proof fn restore_runs_once_per_session(is_tty: bool, n: nat)
    ensures
        ops_of_cleanups(init_spec(is_tty).0, n) == (if is_tty && n > 0 {
            restore_sequence()
        } else {
            Seq::<TermOp>::empty()
        }),
{
    lemma_restore_at_most_once(init_spec(is_tty).0, n);
}

/// A session that finds no interactive terminal reports itself as not
/// interactive, asks for no terminal operation at setup, and asks for none
/// however often it is restored.
pub proof fn non_interactive_session_changes_nothing(n: nat)
    ensures
        !is_tty_spec(init_spec(false).0),
        init_spec(false).1 == Seq::<TermOp>::empty(),
        ops_of_cleanups(init_spec(false).0, n) == Seq::<TermOp>::empty(),
{
    lemma_restore_at_most_once(init_spec(false).0, n);
}

/// The crash path and the normal exit path go through one gate: when one of
/// them makes `first` requests after an active setup and the other then makes
/// `second`, the restore sequence is asked for once in all, by the path that
/// came first, whichever that is.
pub proof fn crash_and_exit_share_one_gate(first: nat, second: nat)
    requires
        first > 0,
        second > 0,
    ensures
        ops_of_cleanups(ScreenState::Entered, first) == restore_sequence(),
        ops_of_cleanups(state_after_cleanups(ScreenState::Entered, first), second) == Seq::<
            TermOp,
        >::empty(),
        ops_of_cleanups(ScreenState::Entered, first + second) == restore_sequence(),
{
    lemma_restore_at_most_once(ScreenState::Entered, first);
    lemma_restore_at_most_once(state_after_cleanups(ScreenState::Entered, first), second);
    lemma_restore_at_most_once(ScreenState::Entered, first + second);
}

/// The text that the banner shows, underlined.
pub fn banner_text() -> (r: &'static str)
    ensures
        r@ == "Hello world!"@,
{
    "Hello world!"
}

/// Owner of the screen state; the single gate through which the terminal
/// is restored.
#[derive(Debug)]
pub struct ScreenManager {
    state: ScreenState,
}

impl View for ScreenManager {
    type V = ScreenState;

    closed spec fn view(&self) -> ScreenState {
        self.state
    }
}

impl ScreenManager {
    /// Starts a session on a terminal whose interactivity is `is_tty`.
    /// Returns the manager and the operations to perform to enter the
    /// alternate screen: none when the output is not interactive.
    pub fn init(is_tty: bool) -> (r: (ScreenManager, Vec<TermOp>))
        ensures
            (r.0@, r.1@) == init_spec(is_tty),
    {
        if is_tty {
            let ops = vec![TermOp::EnterAlternateScreen, TermOp::ClearAll, TermOp::MoveToOrigin, TermOp::EnableRawMode];
            assert(ops@ =~= setup_sequence());
            (ScreenManager { state: ScreenState::Entered }, ops)
        } else {
            let ops: Vec<TermOp> = Vec::new();
            assert(ops@ =~= Seq::<TermOp>::empty());
            (ScreenManager { state: ScreenState::NotEntered }, ops)
        }
    }

    /// Whether setup activated the alternate screen and raw mode.
    pub fn is_tty(&self) -> (r: bool)
        ensures
            r == is_tty_spec(self@),
    {
        match self.state {
            ScreenState::NotEntered => false,
            _ => true,
        }
    }

    /// The operations that show the banner, or `None` when the output is not
    /// an interactive terminal, where the session cannot go on.
    pub fn banner_ops(&self) -> (r: Option<Vec<TermOp>>)
        ensures
            r is Some <==> is_tty_spec(self@),
            r matches Some(ops) ==> ops@ == banner_sequence(),
    {
        if self.is_tty() {
            let ops = vec![TermOp::HideCursor, TermOp::PrintBanner];
            assert(ops@ =~= banner_sequence());
            Some(ops)
        } else {
            None
        }
    }

    /// Asks to restore the terminal. Returns the operations to perform: the
    /// restore sequence the first time after an active setup, and nothing
    /// otherwise.
    pub fn cleanup(&mut self) -> (ops: Vec<TermOp>)
        ensures
            (final(self)@, ops@) == cleanup_spec(old(self)@),
    {
        match self.state {
            ScreenState::Entered => {
                self.state = ScreenState::Restored;
                let ops = vec![TermOp::DisableRawMode, TermOp::ShowCursor, TermOp::LeaveAlternateScreen];
                assert(ops@ =~= restore_sequence());
                ops
            },
            _ => {
                let ops: Vec<TermOp> = Vec::new();
                assert(ops@ =~= Seq::<TermOp>::empty());
                ops
            },
        }
    }
}

} // verus!
