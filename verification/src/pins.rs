//! The GPIO lines that control the panel, as two boards wire them.

use vstd::prelude::*;

verus! {

/// The boards whose wiring is known.
#[derive(Clone, Copy, Debug, PartialEq, Eq, Structural)]
pub enum Board {
    Neo,
    Rpi3,
}

/// The GPIO line numbers behind the four control lines on one board.
#[derive(Clone, Copy, Debug, PartialEq, Eq, Structural)]
pub struct PinMapping {
    pub cs: u64,
    pub rst: u64,
    pub busy: u64,
    pub dc: u64,
}

/// The wiring of a board.
pub open spec fn mapping_of(board: Board) -> PinMapping {
    match board {
        Board::Neo => PinMapping { cs: 67, rst: 1, busy: 2, dc: 0 },
        Board::Rpi3 => PinMapping { cs: 8, rst: 27, busy: 24, dc: 25 },
    }
}

/// The board that runs are wired for.
pub open spec fn active_board() -> Board {
    Board::Neo
}

impl PinMapping {
    /// The wiring of `board`.
    pub fn for_board(board: Board) -> (mapping: PinMapping)
        ensures
            mapping == mapping_of(board),
    {
        match board {
            Board::Neo => PinMapping { cs: 67, rst: 1, busy: 2, dc: 0 },
            Board::Rpi3 => PinMapping { cs: 8, rst: 27, busy: 24, dc: 25 },
        }
    }

    /// The wiring that runs use.
    pub fn active() -> (mapping: PinMapping)
        ensures
            mapping == mapping_of(active_board()),
    {
        PinMapping::for_board(Board::Neo)
    }

    /// Whether a GPIO line number is one of the four of this wiring.
    pub open spec fn has(&self, number: u64) -> bool {
        number == self.cs || number == self.rst || number == self.busy || number == self.dc
    }
}

} // verus!
