//! What moves on the screen: the runner and the cactuses.

pub mod cactuses;
pub mod trex;

pub use cactuses::Cactuses;
pub use trex::{Trex, TrexMoveDirection, TrexStatus};

use vstd::prelude::*;

verus! {

#[derive(Debug)]
pub struct Objects {
    pub trex: Trex,
    pub cactuses: Cactuses,
}

impl Objects {
    /// A runner on the ground of a screen of the given height, and no cactus.
    pub fn new(screen_height: u16) -> (objects: Objects)
        requires
            screen_height >= trex::TREX_TOP,
        ensures
            objects.trex == Trex::spec_new(screen_height),
            objects.cactuses@ == cactuses::CactusesView::empty(),
    {
        Objects { trex: Trex::new(screen_height), cactuses: Cactuses::default() }
    }
}

} // verus!
