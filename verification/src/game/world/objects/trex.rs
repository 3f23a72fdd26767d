//! The runner: a sprite of seven cells and the three-state machine that
//! carries it through a jump.

use vstd::prelude::*;

verus! {

/// How high a runner made by [`Trex::new`] can rise.
pub const TREX_MAX_HEIGHT: u16 = 10;

/// The sprite, as columns right of and rows above the runner's origin: two
/// legs, four cells of body, and the head.
pub const TREX_SPRITE: [(u16, u16); 7] = [(2, 2), (0, 2), (0, 3), (1, 3), (2, 3), (2, 4), (3, 4)];

/// How many columns right of the origin the rightmost cell of the sprite lies.
pub const TREX_REACH: u16 = 3;

/// How many rows above the origin the topmost cell of the sprite lies.
pub const TREX_TOP: u16 = 4;

/// The phase of the runner's jump.
#[derive(Clone, Copy, Debug, PartialEq, Eq, Structural)]
pub enum TrexStatus {
    OnGround,
    Rising,
    Falling,
}

/// The way the sprite moves in one tick of a jump.
#[derive(Clone, Copy, Debug, PartialEq, Eq, Structural)]
pub enum TrexMoveDirection {
    Up,
    Down,
}

/// Where cell `i` of the sprite lies for a runner anchored at `origin` that
/// has risen by `height`. Rows are counted from the top of the screen, so
/// rising lowers the row.
pub open spec fn sprite_cell(origin: (u16, u16), height: u16, i: int) -> (u16, u16) {
    ((origin.0 + TREX_SPRITE[i].0) as u16, (origin.1 - TREX_SPRITE[i].1 - height) as u16)
}

/// The seven cells of a runner anchored at `origin` that has risen by `height`.
pub open spec fn sprite(origin: (u16, u16), height: u16) -> [(u16, u16); 7] {
    [
        sprite_cell(origin, height, 0),
        sprite_cell(origin, height, 1),
        sprite_cell(origin, height, 2),
        sprite_cell(origin, height, 3),
        sprite_cell(origin, height, 4),
        sprite_cell(origin, height, 5),
        sprite_cell(origin, height, 6),
    ]
}

/// A cell one row further in the given direction.
pub open spec fn moved_cell(cell: (u16, u16), direction: TrexMoveDirection) -> (u16, u16) {
    match direction {
        TrexMoveDirection::Up => (cell.0, (cell.1 - 1) as u16),
        TrexMoveDirection::Down => (cell.0, (cell.1 + 1) as u16),
    }
}

/// Seven cells, each one row further in the given direction.
pub open spec fn moved(pixels: [(u16, u16); 7], direction: TrexMoveDirection) -> [(u16, u16); 7] {
    [
        moved_cell(pixels[0], direction),
        moved_cell(pixels[1], direction),
        moved_cell(pixels[2], direction),
        moved_cell(pixels[3], direction),
        moved_cell(pixels[4], direction),
        moved_cell(pixels[5], direction),
        moved_cell(pixels[6], direction),
    ]
}

/// The runner. `pixels` are its cells on the screen, `height` is how far it
/// has risen above the ground, and `origin` anchors the sprite: the column of
/// its leftmost cell, and the row two below its feet when it stands on the
/// ground.
#[derive(Clone, Copy, Debug)]
pub struct Trex {
    pub pixels: [(u16, u16); 7],
    pub status: TrexStatus,
    pub height: u16,
    pub max_height: u16,
    pub origin: (u16, u16),
}

impl Trex {
    /// The runner is consistent: it has not risen above its ceiling, on the
    /// ground its height is zero, its cells are the sprite at its height, and
    /// the whole jump fits on the screen.
    pub open spec fn wf(self) -> bool {
        &&& self.height <= self.max_height
        &&& self.status == TrexStatus::OnGround ==> self.height == 0
        &&& self.origin.0 + TREX_REACH <= u16::MAX
        &&& self.origin.1 >= TREX_TOP + self.max_height
        &&& self.pixels == sprite(self.origin, self.height)
    }

    /// The runner standing on the ground of a screen of the given height.
    pub open spec fn spec_new(screen_height: u16) -> Trex {
        Trex {
            pixels: sprite((0, screen_height), 0),
            status: TrexStatus::OnGround,
            height: 0,
            max_height: TREX_MAX_HEIGHT,
            origin: (0, screen_height),
        }
    }

    /// Whether the sprite can move one row in the given direction without a
    /// coordinate or the height leaving its type.
    pub open spec fn spec_can_shift(self, direction: TrexMoveDirection) -> bool {
        match direction {
            TrexMoveDirection::Up => {
                &&& self.height < u16::MAX
                &&& forall|i: int| 0 <= i < 7 ==> (#[trigger] self.pixels[i]).1 >= 1
            },
            TrexMoveDirection::Down => {
                &&& self.height >= 1
                &&& forall|i: int| 0 <= i < 7 ==> (#[trigger] self.pixels[i]).1 < u16::MAX
            },
        }
    }

    /// The runner one row further in the given direction.
    pub open spec fn spec_shift(self, direction: TrexMoveDirection) -> Trex {
        Trex {
            pixels: moved(self.pixels, direction),
            height: match direction {
                TrexMoveDirection::Up => (self.height + 1) as u16,
                TrexMoveDirection::Down => (self.height - 1) as u16,
            },
            ..self
        }
    }

    /// Whether the next tick asks for no move that the sprite cannot make.
    pub open spec fn spec_can_check_and_shift(self) -> bool {
        &&& self.status == TrexStatus::Rising && self.height < self.max_height
            ==> self.spec_can_shift(TrexMoveDirection::Up)
        &&& self.status == TrexStatus::Falling && self.height > 0
            ==> self.spec_can_shift(TrexMoveDirection::Down)
    }

    /// The runner after one tick. Rising, it moves up until it stands at its
    /// ceiling, and then spends one tick turning to fall; falling, it moves
    /// down until it stands at height zero, and then spends one tick landing.
    pub open spec fn spec_check_and_shift(self) -> Trex {
        match self.status {
            TrexStatus::Rising => if self.height < self.max_height {
                self.spec_shift(TrexMoveDirection::Up)
            } else {
                Trex { status: TrexStatus::Falling, ..self }
            },
            TrexStatus::Falling => if self.height > 0 {
                self.spec_shift(TrexMoveDirection::Down)
            } else {
                Trex { status: TrexStatus::OnGround, ..self }
            },
            TrexStatus::OnGround => self,
        }
    }

    /// The runner after a jump was asked for: only a runner on the ground
    /// starts to rise.
    pub open spec fn spec_jump(self) -> Trex {
        if self.status == TrexStatus::OnGround {
            Trex { status: TrexStatus::Rising, ..self }
        } else {
            self
        }
    }

    /// The runner after `n` ticks.
    pub open spec fn spec_ticks(self, n: nat) -> Trex
        decreases n,
    {
        if n == 0 {
            self
        } else {
            self.spec_ticks((n - 1) as nat).spec_check_and_shift()
        }
    }

    /// Tells whether the sprite can move one row in the given direction.
    pub fn can_shift(&self, direction: TrexMoveDirection) -> (can: bool)
        ensures
            can == self.spec_can_shift(direction),
    {
        let (last_height, last_row): (u16, u16) = match direction {
            TrexMoveDirection::Up => (u16::MAX, 0),
            TrexMoveDirection::Down => (0, u16::MAX),
        };
        if self.height == last_height {
            return false;
        }
        let mut i: usize = 0;
        while i < 7
            invariant
                i <= 7,
                self.height != last_height,
                (last_height, last_row) == (match direction {
                    TrexMoveDirection::Up => (u16::MAX, 0u16),
                    TrexMoveDirection::Down => (0u16, u16::MAX),
                }),
                forall|j: int| 0 <= j < i ==> (#[trigger] self.pixels[j]).1 != last_row,
            decreases 7 - i,
        {
            if self.pixels[i].1 == last_row {
                return false;
            }
            i += 1;
        }
        true
    }

    /// Tells whether the next tick asks for no move that the sprite cannot
    /// make.
    pub fn can_check_and_shift(&self) -> (can: bool)
        ensures
            can == self.spec_can_check_and_shift(),
    {
        match self.status {
            TrexStatus::Rising => {
                self.height >= self.max_height || self.can_shift(TrexMoveDirection::Up)
            },
            TrexStatus::Falling => {
                self.height == 0 || self.can_shift(TrexMoveDirection::Down)
            },
            TrexStatus::OnGround => true,
        }
    }

    /// A runner on the ground of a screen of the given height.
    pub fn new(screen_height: u16) -> (trex: Trex)
        requires
            screen_height >= TREX_TOP,
        ensures
            trex == Trex::spec_new(screen_height),
            screen_height >= TREX_TOP + TREX_MAX_HEIGHT ==> trex.wf(),
    {
        let trex = Trex {
            status: TrexStatus::OnGround,
            height: 0,
            max_height: TREX_MAX_HEIGHT,
            pixels: [
                // legs
                (2, screen_height - 2),
                (0, screen_height - 2),
                // body
                (0, screen_height - 3),
                (1, screen_height - 3),
                (2, screen_height - 3),
                (2, screen_height - 4),
                // head
                (3, screen_height - 4),
            ],
            origin: (0, screen_height),
        };
        trex
    }

    /// Asks for a jump: a runner on the ground starts to rise, any other
    /// ignores it.
    pub fn jump(&mut self)
        ensures
            *final(self) == old(self).spec_jump(),
            old(self).wf() ==> final(self).wf(),
    {
        if self.status == TrexStatus::OnGround {
            self.status = TrexStatus::Rising;
        }
    }

    /// Advances the jump by one tick.
    pub fn check_and_shift(&mut self)
        requires
            old(self).spec_can_check_and_shift(),
        ensures
            *final(self) == old(self).spec_check_and_shift(),
            old(self).wf() ==> final(self).wf(),
    {
        match self.status {
            TrexStatus::Rising => {
                if self.height < self.max_height {
                    self.shift(TrexMoveDirection::Up);
                } else {
                    self.status = TrexStatus::Falling;
                }
            },
            TrexStatus::Falling => {
                if self.height > 0 {
                    self.shift(TrexMoveDirection::Down);
                } else {
                    self.status = TrexStatus::OnGround;
                }
            },
            _ => {},
        }
        proof {
            if old(self).wf() {
                old(self).lemma_tick_keeps_wf();
            }
        }
    }

    /// Moves the sprite one row in the given direction and records it in the
    /// height.
    pub fn shift(&mut self, direction: TrexMoveDirection)
        requires
            old(self).spec_can_shift(direction),
        ensures
            *final(self) == old(self).spec_shift(direction),
    {
        if direction == TrexMoveDirection::Up {
            self.height += 1;
        } else {
            self.height -= 1;
        }
        let mut i: usize = 0;
        while i < 7
            invariant
                i <= 7,
                old(self).spec_can_shift(direction),
                self.status == old(self).status,
                self.max_height == old(self).max_height,
                self.origin == old(self).origin,
                self.height == old(self).spec_shift(direction).height,
                forall|j: int|
                    0 <= j < i ==> self.pixels[j] == moved_cell(old(self).pixels[j], direction),
                forall|j: int| i <= j < 7 ==> self.pixels[j] == old(self).pixels[j],
            decreases 7 - i,
        {
            let pixel = self.pixels[i];
            match direction {
                TrexMoveDirection::Up => {
                    self.pixels[i] = (pixel.0, pixel.1 - 1);
                },
                TrexMoveDirection::Down => {
                    self.pixels[i] = (pixel.0, pixel.1 + 1);
                },
            }
            i += 1;
        }
        assert(self.pixels =~= moved(old(self).pixels, direction));
    }

    /// A consistent runner can always make the move that its next tick asks
    /// for, and is consistent afterwards.
    pub proof fn lemma_tick_keeps_wf(self)
        requires
            self.wf(),
        ensures
            self.spec_can_check_and_shift(),
            self.spec_check_and_shift().wf(),
    {
    }

    /// This runner in another phase of its jump.
    pub open spec fn at(self, status: TrexStatus, height: u16) -> Trex {
        Trex { pixels: sprite(self.origin, height), status, height, ..self }
    }

    /// Where a runner that jumped from the ground is after `k` ticks: it rises
    /// one row per tick, turns, falls one row per tick, and lands.
    proof fn lemma_arc_position(self, k: nat)
        requires
            self.wf(),
            self.status == TrexStatus::OnGround,
            k <= 2 * self.max_height + 2,
        ensures
            k <= self.max_height
                ==> self.spec_jump().spec_ticks(k) == self.at(TrexStatus::Rising, k as u16),
            self.max_height < k <= 2 * self.max_height + 1
                ==> self.spec_jump().spec_ticks(k)
                    == self.at(TrexStatus::Falling, (2 * self.max_height + 1 - k) as u16),
            k == 2 * self.max_height + 2 ==> self.spec_jump().spec_ticks(k) == self,
        decreases k,
    {
        if k > 0 {
            self.lemma_arc_position((k - 1) as nat);
        }
    }

    /// A jump from the ground lasts exactly `2 * max_height + 2` ticks: the
    /// runner is off the ground after every smaller number of ticks, never
    /// above its ceiling, and after the last tick it stands on the ground
    /// again, cell for cell where it started.
    pub proof fn lemma_jump_arc(self)
        requires
            self.wf(),
            self.status == TrexStatus::OnGround,
        ensures
            forall|k: nat|
                k < 2 * self.max_height + 2
                    ==> (#[trigger] self.spec_jump().spec_ticks(k)).status != TrexStatus::OnGround,
            forall|k: nat|
                k <= 2 * self.max_height + 2 ==> (#[trigger] self.spec_jump().spec_ticks(k)).wf(),
            self.spec_jump().spec_ticks((2 * self.max_height + 2) as nat) == self,
    {
        let jumped = self.spec_jump();
        assert forall|k: nat| k <= 2 * self.max_height + 2 implies {
            &&& (#[trigger] jumped.spec_ticks(k)).wf()
            &&& k < 2 * self.max_height + 2 ==> jumped.spec_ticks(k).status != TrexStatus::OnGround
        } by {
            self.lemma_arc_position(k);
        }
        self.lemma_arc_position((2 * self.max_height + 2) as nat);
    }
}

} // verus!
