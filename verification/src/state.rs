//! The two-valued board mode and the signals that move it.

use vstd::prelude::*;

verus! {

/// The mode of the board: either the detector currently considers the board
/// to be in free fall, or it does not.  The initial mode is `NotFalling`.
#[derive(Clone, Copy, Debug, PartialEq, Eq, Structural)]
pub enum BoardState {
    Falling,
    NotFalling,
}

/// A signal emitted by the classifier: the board has started to fall, or it
/// has recovered.  Each signal asks the surrounding program for one atomic
/// block of actuator work (tone on and falling glyph, or tone off and
/// resting glyph).
#[derive(Clone, Copy, Debug, PartialEq, Eq, Structural)]
pub enum Transition {
    Fell,
    Recovered,
}

impl BoardState {
    /// The opposite mode.
    pub open spec fn flipped(self) -> BoardState {
        match self {
            BoardState::Falling => BoardState::NotFalling,
            BoardState::NotFalling => BoardState::Falling,
        }
    }

    /// The mode after a signal arrives.  A signal consistent with the current
    /// mode flips it; an inconsistent one (`Fell` while already `Falling`,
    /// `Recovered` while already `NotFalling`) leaves the mode unchanged.
    pub open spec fn after_signal(self, signal: Transition) -> BoardState {
        match signal {
            Transition::Fell => BoardState::Falling,
            Transition::Recovered => BoardState::NotFalling,
        }
    }

    /// The starting mode of a freshly powered board.
    pub fn new() -> (s: BoardState)
        ensures
            s == BoardState::NotFalling,
    {
        BoardState::NotFalling
    }

    /// Step to the opposite mode unconditionally.
    pub fn next(self) -> (s: BoardState)
        ensures
            s == self.flipped(),
    {
        match self {
            BoardState::Falling => BoardState::NotFalling,
            BoardState::NotFalling => BoardState::Falling,
        }
    }

    /// Apply a signal to the current mode.  An inconsistent signal is a
    /// no-op: invoking `Fell` while already `Falling` (or `Recovered` while
    /// already `NotFalling`) returns the mode unchanged, so a duplicate
    /// signal never asks for duplicate actuator work.
    pub fn on_signal(self, signal: Transition) -> (s: BoardState)
        ensures
            s == self.after_signal(signal),
            self is Falling && signal is Fell ==> s == self,
            self is NotFalling && signal is Recovered ==> s == self,
    {
        match signal {
            Transition::Fell => BoardState::Falling,
            Transition::Recovered => BoardState::NotFalling,
        }
    }
}

} // verus!
