//! What the render loop does after each poll of the input.
use vstd::prelude::*;

verus! {

/// What one poll of the input returned.
#[derive(Clone, Copy, Debug, PartialEq, Eq, Structural)]
pub enum Input {
    /// A key was pressed.
    Key(char),
    /// A key that is not a character, such as an arrow or a function key.
    OtherKey,
    /// The terminal changed size.
    Resize,
    /// The poll timed out with nothing to report.
    Nothing,
}

/// Whether the animation is running or held by a pause.
#[derive(Clone, Copy, Debug, PartialEq, Eq, Structural)]
pub enum Mode {
    Running,
    Paused,
}

/// What the loop must do next.
#[derive(Clone, Copy, Debug, PartialEq, Eq, Structural)]
pub enum Action {
    /// Restore the terminal and stop.
    Quit,
    /// Go on to the next tick.
    Tick,
    /// Poll again without ticking.
    Wait,
    /// Measure the window again, build a fresh game for it, redraw, and go on
    /// to the next tick.
    Rebuild,
}

/// The dispatch policy. While running: `q` quits, `p` or space pauses, a
/// resize rebuilds the game, and anything else (or nothing) lets the next tick
/// come. While paused: nothing keeps the pause, and any input at all, a resize
/// included, ends it and lets the next tick come.
pub open spec fn next_spec(m: Mode, i: Input) -> (Mode, Action) {
    match m {
        Mode::Running => match i {
            Input::Key(c) => if c == 'q' {
                (Mode::Running, Action::Quit)
            } else if c == 'p' || c == ' ' {
                (Mode::Paused, Action::Wait)
            } else {
                (Mode::Running, Action::Tick)
            },
            Input::Resize => (Mode::Running, Action::Rebuild),
            Input::OtherKey | Input::Nothing => (Mode::Running, Action::Tick),
        },
        Mode::Paused => match i {
            Input::Nothing => (Mode::Paused, Action::Wait),
            _ => (Mode::Running, Action::Tick),
        },
    }
}

/// The mode and action that follow input `i` in mode `m`.
pub fn next(m: Mode, i: Input) -> (r: (Mode, Action))
    ensures
        r == next_spec(m, i),
{
    match m {
        Mode::Running => match i {
            Input::Key(c) => {
                if c == 'q' {
                    (Mode::Running, Action::Quit)
                } else if c == 'p' || c == ' ' {
                    (Mode::Paused, Action::Wait)
                } else {
                    (Mode::Running, Action::Tick)
                }
            },
            Input::Resize => (Mode::Running, Action::Rebuild),
            Input::OtherKey | Input::Nothing => (Mode::Running, Action::Tick),
        },
        Mode::Paused => match i {
            Input::Nothing => (Mode::Paused, Action::Wait),
            _ => (Mode::Running, Action::Tick),
        },
    }
}

/// A pause lasts exactly as long as the polls return nothing: in the paused
/// mode the game never ticks, quits or rebuilds on its own, and the first
/// input of any kind resumes it.
pub proof fn lemma_pause_until_input(i: Input)
    ensures
        next_spec(Mode::Paused, i).1 == Action::Tick || next_spec(Mode::Paused, i).1
            == Action::Wait,
        next_spec(Mode::Paused, i).0 == Mode::Paused <==> i == Input::Nothing,
{
}

/// Only `q` stops the loop, and only while running.
pub proof fn lemma_only_q_quits(m: Mode, i: Input)
    ensures
        next_spec(m, i).1 == Action::Quit <==> (m == Mode::Running && i == Input::Key('q')),
{
}

} // verus!
