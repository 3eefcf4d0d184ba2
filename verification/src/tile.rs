//! The domino tiles: pure data, no game rules.

use vstd::prelude::*;

verus! {

/// One face of a domino: a closed set of six values.
#[derive(Clone, Copy, Debug, PartialEq, Eq, Structural)]
pub enum DominoValue {
    One,
    Two,
    Three,
    Four,
    Five,
    Six,
}

/// A domino tile: two face values, immutable once created.
#[derive(Clone, Copy, Debug, PartialEq, Eq, Structural)]
pub struct Domino {
    pub top: DominoValue,
    pub bottom: DominoValue,
}

/// The placeholder tile every new game is populated with.
pub open spec fn default_domino() -> Domino {
    Domino { top: DominoValue::One, bottom: DominoValue::Five }
}

} // verus!
