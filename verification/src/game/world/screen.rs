//! The size of the terminal, fixed for the length of a run.

use crate::game::world::objects::cactuses::{cactus_form, every_cactus_fits, CACTUS_FORMS};
use crate::game::world::objects::trex::{TREX_MAX_HEIGHT, TREX_TOP};
use vstd::prelude::*;

verus! {

/// The widest screen on which every cactus still has columns to be born in.
pub const MAX_PLAYABLE_WIDTH: u16 = 65529;

/// The lowest screen on which the runner's whole jump stays on the screen.
pub const MIN_PLAYABLE_HEIGHT: u16 = 14;

/// The size of the screen in cells. Columns are counted from the left and
/// rows from the top.
#[derive(Clone, Copy, Debug, PartialEq, Eq, Structural)]
pub struct Screen {
    pub width: u16,
    pub height: u16,
}

impl Screen {
    /// The screen can hold a run: the runner can rise to its ceiling without
    /// leaving the top of the screen, and a cactus of any form can be born
    /// beyond the right edge.
    pub open spec fn playable(self) -> bool {
        &&& self.height >= TREX_TOP + TREX_MAX_HEIGHT
        &&& every_cactus_fits(self.width, self.height)
    }

    /// A screen of the given size.
    pub fn new(width: u16, height: u16) -> (screen: Screen)
        ensures
            screen == (Screen { width, height }),
    {
        Screen { width, height }
    }

    /// Tells whether the screen can hold a run.
    pub fn is_playable(&self) -> (playable: bool)
        ensures
            playable == self.playable(),
    {
        proof {
            assert(cactus_form(CACTUS_FORMS as int));
        }
        self.width <= MAX_PLAYABLE_WIDTH && self.height >= MIN_PLAYABLE_HEIGHT
    }
}

} // verus!
