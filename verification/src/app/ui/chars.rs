//! # Character Module
//!
//! The data structures that represent styled characters and their states in
//! the typing area.

use vstd::prelude::*;

verus! {

/// State of a character in the typing area.
#[derive(Clone, Copy, Debug, PartialEq, Eq, Structural)]
pub enum CharState {
    Default,
    Pending,
    Correct,
    Incorrect,
    Skipped,
    Extra,
    Cursor,
}

impl Default for CharState {
    fn default() -> (state: Self)
        ensures
            state == CharState::Default,
    {
        CharState::Default
    }
}

/// A single character and its state.
#[derive(Clone, Copy, Debug, PartialEq, Eq, Structural)]
pub struct StyledChar {
    pub char: char,
    pub state: CharState,
}

/// The cell that shows `char` in `state`.
pub open spec fn styled(char: char, state: CharState) -> StyledChar {
    StyledChar { char, state }
}

impl StyledChar {
    pub fn new(char: char, state: CharState) -> (cell: Self)
        ensures
            cell == styled(char, state),
    {
        Self { char, state }
    }
}

} // verus!
