//! The colours in which a run is painted.

use vstd::prelude::*;

verus! {

/// The colours of the palette.
#[derive(Clone, Copy, Debug, PartialEq, Eq, Structural)]
pub enum Color {
    Black,
    Red,
    Green,
    Blue,
    Cyan,
    White,
}

#[derive(Clone, Copy, Debug, PartialEq, Eq, Structural)]
pub struct Theme {
    pub background: Color,
    pub trex: Color,
    pub collided_trex: Color,
    pub trex_eye: Color,
    pub cloud: Color,
    pub cactus: Color,
    pub message: Color,
    pub message_background: Color,
}

impl Theme {
    /// The colours of a new run.
    pub open spec fn spec_default() -> Theme {
        Theme {
            background: Color::Blue,
            trex: Color::Green,
            trex_eye: Color::White,
            collided_trex: Color::Red,
            cloud: Color::Cyan,
            cactus: Color::Green,
            message: Color::Cyan,
            message_background: Color::Black,
        }
    }
}

impl Default for Theme {
    fn default() -> (theme: Theme)
        ensures
            theme == Theme::spec_default(),
    {
        Theme {
            background: Color::Blue,
            trex: Color::Green,
            trex_eye: Color::White,
            collided_trex: Color::Red,
            cloud: Color::Cyan,
            cactus: Color::Green,
            message: Color::Cyan,
            message_background: Color::Black,
        }
    }
}

} // verus!
