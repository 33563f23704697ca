//! The two sides in a chess game.

use vstd::prelude::*;

verus! {

/// One of the two players' sides.
///
/// In every chess variant White conventionally acts first.
#[derive(Debug, Clone, Copy, PartialEq, Eq, Hash, Structural)]
pub enum Color {
    /// The side that moves first.
    White,
    /// The side that moves second.
    Black,
}

impl Color {
    /// The other side.
    pub open spec fn other(self) -> Color {
        match self {
            Color::White => Color::Black,
            Color::Black => Color::White,
        }
    }

    /// Returns the opposing side.
    #[must_use]
    pub fn opposite(self) -> (r: Self)
        ensures
            r == self.other(),
    {
        match self {
            Color::White => Color::Black,
            Color::Black => Color::White,
        }
    }

    /// The lowercase name of the side.
    pub open spec fn name(self) -> Seq<char> {
        match self {
            Color::White => "white"@,
            Color::Black => "black"@,
        }
    }

    /// Renders the side as `white` or `black`.
    pub fn to_string(&self) -> (r: String)
        ensures
            r@ == self.name(),
    {
        match self {
            Color::White => "white".to_owned(),
            Color::Black => "black".to_owned(),
        }
    }
}

/// Taking the opposite side twice gives the side back, and no side is its own
/// opposite.
pub proof fn opposite_is_an_involution(color: Color)
    ensures
        color.other().other() == color,
        color.other() != color,
{
}

/// The two sides render differently.
pub proof fn names_tell_sides_apart(a: Color, b: Color)
    ensures
        a.name() == b.name() <==> a == b,
{
    reveal_strlit("white");
    reveal_strlit("black");
    assert("white"@[0] != "black"@[0]);
}

} // verus!
