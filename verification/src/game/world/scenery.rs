//! The scrolling scenery: two decorative lines with periodic stones and a
//! ground strip with periodic grains.

use crate::game::world::countdown::countdown;
use crate::random::draw_when_spent;
use vstd::prelude::*;

verus! {

/// A fresh stone distance is drawn from `STONE_DISTANCE_MIN..STONE_DISTANCE_END`.
pub const STONE_DISTANCE_MIN: u16 = 50;

pub const STONE_DISTANCE_END: u16 = 100;

/// A fresh grain distance is drawn from `GRAIN_DISTANCE_MIN..GRAIN_DISTANCE_END`.
pub const GRAIN_DISTANCE_MIN: u16 = 10;

pub const GRAIN_DISTANCE_END: u16 = 20;

/// Whether `distance` may start a new stone countdown.
pub open spec fn stone_distance(distance: int) -> bool {
    STONE_DISTANCE_MIN <= distance < STONE_DISTANCE_END
}

/// Whether `distance` may start a new grain countdown.
pub open spec fn grain_distance(distance: int) -> bool {
    GRAIN_DISTANCE_MIN <= distance < GRAIN_DISTANCE_END
}

/// The fresh distances that one tick of the road may need, one for each of
/// its three countdowns.
#[derive(Clone, Copy, Debug, PartialEq, Eq, Structural)]
pub struct RoadDraws {
    pub top_stone: u16,
    pub bottom_stone: u16,
    pub grain: u16,
}

impl RoadDraws {
    /// Each distance lies in the range that its countdown restarts from.
    pub open spec fn valid(self) -> bool {
        &&& stone_distance(self.top_stone as int)
        &&& stone_distance(self.bottom_stone as int)
        &&& grain_distance(self.grain as int)
    }

    /// The smallest distance of each range.
    pub fn minimum() -> (draws: RoadDraws)
        ensures
            draws == (RoadDraws {
                top_stone: STONE_DISTANCE_MIN,
                bottom_stone: STONE_DISTANCE_MIN,
                grain: GRAIN_DISTANCE_MIN,
            }),
            draws.valid(),
    {
        RoadDraws {
            top_stone: STONE_DISTANCE_MIN,
            bottom_stone: STONE_DISTANCE_MIN,
            grain: GRAIN_DISTANCE_MIN,
        }
    }

    /// Tells whether each distance lies in its range.
    pub fn is_valid(&self) -> (valid: bool)
        ensures
            valid == self.valid(),
    {
        STONE_DISTANCE_MIN <= self.top_stone && self.top_stone < STONE_DISTANCE_END
            && STONE_DISTANCE_MIN <= self.bottom_stone && self.bottom_stone < STONE_DISTANCE_END
            && GRAIN_DISTANCE_MIN <= self.grain && self.grain < GRAIN_DISTANCE_END
    }
}

/// Whether every one of the draws is valid.
pub open spec fn valid_road_draws(draws: Seq<RoadDraws>) -> bool {
    forall|i: int| 0 <= i < draws.len() ==> (#[trigger] draws[i]).valid()
}

/// One cell of a decorative line.
#[derive(Clone, Copy, Debug, PartialEq, Eq, Structural)]
pub enum LineStatus {
    Line,
    StoneStart,
    StoneMiddle,
    StoneEnd,
}

impl LineStatus {
    /// The cell that a line emits while its countdown stands at `distance`:
    /// the three cells of a stone at 2, 1 and 0, plain line before that.
    pub open spec fn spec_at(distance: int) -> LineStatus {
        if distance == 2 {
            LineStatus::StoneStart
        } else if distance == 1 {
            LineStatus::StoneMiddle
        } else if distance == 0 {
            LineStatus::StoneEnd
        } else {
            LineStatus::Line
        }
    }

    /// The character that paints the cell.
    pub open spec fn spec_glyph(self) -> char {
        match self {
            LineStatus::StoneStart => '/',
            LineStatus::StoneMiddle => '-',
            LineStatus::StoneEnd => '\\',
            LineStatus::Line => '_',
        }
    }

    /// The character that paints this cell.
    pub fn glyph(&self) -> (glyph: char)
        ensures
            glyph == self.spec_glyph(),
    {
        match self {
            LineStatus::StoneStart => '/',
            LineStatus::StoneMiddle => '-',
            LineStatus::StoneEnd => '\\',
            LineStatus::Line => '_',
        }
    }

    /// The cell for a countdown that stands at `distance`.
    pub fn at(distance: u16) -> (cell: LineStatus)
        ensures
            cell == Self::spec_at(distance as int),
    {
        match distance {
            2 => LineStatus::StoneStart,
            1 => LineStatus::StoneMiddle,
            0 => LineStatus::StoneEnd,
            _ => LineStatus::Line,
        }
    }
}

/// The road as mathematics: three countdowns and three sequences of cells,
/// oldest cell first.
pub ghost struct RoadView {
    pub top_stone_distance: int,
    pub bottom_stone_distance: int,
    pub grain_distance: int,
    pub top_line: Seq<LineStatus>,
    pub bottom_line: Seq<LineStatus>,
    pub ground: Seq<bool>,
}

impl RoadView {
    /// The road before anything was generated.
    pub open spec fn empty() -> RoadView {
        RoadView {
            top_stone_distance: 0,
            bottom_stone_distance: 0,
            grain_distance: 0,
            top_line: Seq::empty(),
            bottom_line: Seq::empty(),
            ground: Seq::empty(),
        }
    }

    /// One more cell on the top line; `fresh` restarts the countdown if this
    /// cell ends a stone.
    pub open spec fn generate_top_line(self, fresh: int) -> RoadView {
        RoadView {
            top_line: self.top_line.push(LineStatus::spec_at(self.top_stone_distance)),
            top_stone_distance: countdown(self.top_stone_distance, fresh),
            ..self
        }
    }

    /// One more cell on the bottom line.
    pub open spec fn generate_bottom_line(self, fresh: int) -> RoadView {
        RoadView {
            bottom_line: self.bottom_line.push(LineStatus::spec_at(self.bottom_stone_distance)),
            bottom_stone_distance: countdown(self.bottom_stone_distance, fresh),
            ..self
        }
    }

    /// One more cell of ground: a grain exactly when the countdown had run out.
    pub open spec fn generate_ground(self, fresh: int) -> RoadView {
        RoadView {
            ground: self.ground.push(self.grain_distance == 0),
            grain_distance: countdown(self.grain_distance, fresh),
            ..self
        }
    }

    /// One tick of the whole road: a cell more on the top line, on the bottom
    /// line and on the ground.
    pub open spec fn generate(self, draws: RoadDraws) -> RoadView {
        self.generate_top_line(draws.top_stone as int)
            .generate_bottom_line(draws.bottom_stone as int)
            .generate_ground(draws.grain as int)
    }

    /// As many ticks of the road as there are draws, each with its own.
    pub open spec fn generate_all(self, draws: Seq<RoadDraws>) -> RoadView
        decreases draws.len(),
    {
        if draws.len() == 0 {
            self
        } else {
            self.generate_all(draws.drop_last()).generate(draws.last())
        }
    }

    /// Whether each of the three sequences has a cell to lose.
    pub open spec fn can_delete_first(self) -> bool {
        self.top_line.len() >= 1 && self.bottom_line.len() >= 1 && self.ground.len() >= 1
    }

    /// The road without the oldest cell of each sequence.
    pub open spec fn delete_first(self) -> RoadView {
        RoadView {
            top_line: self.top_line.remove(0),
            bottom_line: self.bottom_line.remove(0),
            ground: self.ground.remove(0),
            ..self
        }
    }

    /// Every countdown stands where a countdown of its kind can stand: it is
    /// not negative and below the largest distance it restarts from.
    pub open spec fn counting(self) -> bool {
        &&& 0 <= self.top_stone_distance < STONE_DISTANCE_END - 1
        &&& 0 <= self.bottom_stone_distance < STONE_DISTANCE_END - 1
        &&& 0 <= self.grain_distance < GRAIN_DISTANCE_END - 1
    }

    /// All three sequences have the given length.
    pub open spec fn filled_to(self, width: int) -> bool {
        &&& self.top_line.len() == width
        &&& self.bottom_line.len() == width
        &&& self.ground.len() == width
    }
}

impl RoadView {
    /// Ticks with valid draws make each sequence one cell longer per tick,
    /// keep what the sequences held, and leave every countdown where a
    /// countdown can stand.
    pub proof fn lemma_generate_all_grows(self, draws: Seq<RoadDraws>)
        requires
            valid_road_draws(draws),
        ensures
            self.generate_all(draws).top_line.len() == self.top_line.len() + draws.len(),
            self.generate_all(draws).bottom_line.len() == self.bottom_line.len() + draws.len(),
            self.generate_all(draws).ground.len() == self.ground.len() + draws.len(),
            self.top_line.is_prefix_of(self.generate_all(draws).top_line),
            self.bottom_line.is_prefix_of(self.generate_all(draws).bottom_line),
            self.ground.is_prefix_of(self.generate_all(draws).ground),
            self.counting() ==> self.generate_all(draws).counting(),
        decreases draws.len(),
    {
        if draws.len() > 0 {
            self.lemma_generate_all_grows(draws.drop_last());
        }
    }

    /// Stones on the top line are a fresh distance apart. When a tick ends a
    /// stone and restarts the countdown from `gap`, a distance of 50 to 99,
    /// the cells that follow are those of the countdown from `gap - 1` down:
    /// plain line, then the start and the middle of the next stone, whose end
    /// is the cell `gap` places after the end of this one, and no cell before.
    pub proof fn lemma_top_stone_period(self, draws: Seq<RoadDraws>)
        requires
            self.top_stone_distance == 0,
            draws.len() >= 1,
            stone_distance(draws[0].top_stone as int),
            draws.len() <= draws[0].top_stone + 1,
        ensures
            self.generate_all(draws).top_line.len() == self.top_line.len() + draws.len(),
            self.generate_all(draws).top_line[self.top_line.len() as int] == LineStatus::StoneEnd,
            forall|i: int|
                self.top_line.len() < i < self.top_line.len() + draws.len()
                    ==> #[trigger] self.generate_all(draws).top_line[i] == LineStatus::spec_at(
                        draws[0].top_stone - (i - self.top_line.len()),
                    ),
            forall|i: int|
                self.top_line.len() < i < self.top_line.len() + draws.len()
                    ==> (#[trigger] self.generate_all(draws).top_line[i] == LineStatus::StoneEnd
                        <==> i == self.top_line.len() + draws[0].top_stone),
            draws.len() <= draws[0].top_stone
                ==> self.generate_all(draws).top_stone_distance
                    == draws[0].top_stone - draws.len(),
        decreases draws.len(),
    {
        if draws.len() == 1 {
            assert(self.generate_all(draws.drop_last()) == self);
        } else {
            assert(draws.drop_last()[0] == draws[0]);
            self.lemma_top_stone_period(draws.drop_last());
        }
    }

    /// Stones on the bottom line are a fresh distance apart, as on the top
    /// line.
    pub proof fn lemma_bottom_stone_period(self, draws: Seq<RoadDraws>)
        requires
            self.bottom_stone_distance == 0,
            draws.len() >= 1,
            stone_distance(draws[0].bottom_stone as int),
            draws.len() <= draws[0].bottom_stone + 1,
        ensures
            self.generate_all(draws).bottom_line.len() == self.bottom_line.len() + draws.len(),
            self.generate_all(draws).bottom_line[self.bottom_line.len() as int]
                == LineStatus::StoneEnd,
            forall|i: int|
                self.bottom_line.len() < i < self.bottom_line.len() + draws.len()
                    ==> #[trigger] self.generate_all(draws).bottom_line[i] == LineStatus::spec_at(
                        draws[0].bottom_stone - (i - self.bottom_line.len()),
                    ),
            forall|i: int|
                self.bottom_line.len() < i < self.bottom_line.len() + draws.len()
                    ==> (#[trigger] self.generate_all(draws).bottom_line[i] == LineStatus::StoneEnd
                        <==> i == self.bottom_line.len() + draws[0].bottom_stone),
            draws.len() <= draws[0].bottom_stone
                ==> self.generate_all(draws).bottom_stone_distance
                    == draws[0].bottom_stone - draws.len(),
        decreases draws.len(),
    {
        if draws.len() == 1 {
            assert(self.generate_all(draws.drop_last()) == self);
        } else {
            assert(draws.drop_last()[0] == draws[0]);
            self.lemma_bottom_stone_period(draws.drop_last());
        }
    }

    /// Grains are a fresh distance apart. When a tick lays a grain and
    /// restarts the countdown from `gap`, a distance of 10 to 19, the next
    /// grain is the cell `gap` places after this one, and no cell before.
    pub proof fn lemma_grain_period(self, draws: Seq<RoadDraws>)
        requires
            self.grain_distance == 0,
            draws.len() >= 1,
            grain_distance(draws[0].grain as int),
            draws.len() <= draws[0].grain + 1,
        ensures
            self.generate_all(draws).ground.len() == self.ground.len() + draws.len(),
            self.generate_all(draws).ground[self.ground.len() as int],
            forall|i: int|
                self.ground.len() < i < self.ground.len() + draws.len()
                    ==> (#[trigger] self.generate_all(draws).ground[i]
                        <==> i == self.ground.len() + draws[0].grain),
            draws.len() <= draws[0].grain
                ==> self.generate_all(draws).grain_distance == draws[0].grain - draws.len(),
        decreases draws.len(),
    {
        if draws.len() == 1 {
            assert(self.generate_all(draws.drop_last()) == self);
        } else {
            assert(draws.drop_last()[0] == draws[0]);
            self.lemma_grain_period(draws.drop_last());
        }
    }
}

/// The road: what the two lines and the ground show, and how far each is from
/// its next marker.
#[derive(Debug)]
pub struct Road {
    pub top_stone_distance: u16,
    pub bottom_stone_distance: u16,
    pub grain_distance: u16,
    pub top_line: Vec<LineStatus>,
    pub bottom_line: Vec<LineStatus>,
    pub ground: Vec<bool>,
}

impl View for Road {
    type V = RoadView;

    open spec fn view(&self) -> RoadView {
        RoadView {
            top_stone_distance: self.top_stone_distance as int,
            bottom_stone_distance: self.bottom_stone_distance as int,
            grain_distance: self.grain_distance as int,
            top_line: self.top_line@,
            bottom_line: self.bottom_line@,
            ground: self.ground@,
        }
    }
}

impl Default for Road {
    fn default() -> (road: Road)
        ensures
            road@ == RoadView::empty(),
    {
        Road {
            top_stone_distance: 0,
            bottom_stone_distance: 0,
            grain_distance: 0,
            top_line: Vec::new(),
            bottom_line: Vec::new(),
            ground: Vec::new(),
        }
    }
}

/// Appends to `line` the cell for the countdown `distance` and ticks the
/// countdown, restarting it from `fresh` if it had run out.
fn grow_line(line: &mut Vec<LineStatus>, distance: &mut u16, fresh: u16)
    requires
        fresh >= 1,
    ensures
        final(line)@ == old(line)@.push(LineStatus::spec_at(*old(distance) as int)),
        *final(distance) == countdown(*old(distance) as int, fresh as int),
{
    line.push(LineStatus::at(*distance));
    if *distance == 0 {
        *distance = fresh;
    }
    *distance -= 1;
}

impl Road {
    /// Appends the next cell of the top line, drawing a fresh stone distance
    /// when this cell ends a stone.
    pub fn generate_top_line(&mut self)
        ensures
            exists|fresh: int| #[trigger]
                stone_distance(fresh) && final(self)@ == old(self)@.generate_top_line(fresh),
    {
        let fresh: u16 = draw_when_spent(
            self.top_stone_distance,
            STONE_DISTANCE_MIN,
            STONE_DISTANCE_END,
        );
        self.generate_top_line_with(fresh);
        assert(stone_distance(fresh as int));
    }

    /// Appends the next cell of the top line; `fresh` is the stone distance to
    /// restart from if this cell ends a stone.
    pub fn generate_top_line_with(&mut self, fresh: u16)
        requires
            stone_distance(fresh as int),
        ensures
            final(self)@ == old(self)@.generate_top_line(fresh as int),
    {
        grow_line(&mut self.top_line, &mut self.top_stone_distance, fresh);
    }

    /// Appends the next cell of the bottom line, drawing a fresh stone
    /// distance when this cell ends a stone.
    pub fn generate_bottom_line(&mut self)
        ensures
            exists|fresh: int| #[trigger]
                stone_distance(fresh) && final(self)@ == old(self)@.generate_bottom_line(fresh),
    {
        let fresh: u16 = draw_when_spent(
            self.bottom_stone_distance,
            STONE_DISTANCE_MIN,
            STONE_DISTANCE_END,
        );
        self.generate_bottom_line_with(fresh);
        assert(stone_distance(fresh as int));
    }

    /// Appends the next cell of the bottom line; `fresh` is the stone distance
    /// to restart from if this cell ends a stone.
    pub fn generate_bottom_line_with(&mut self, fresh: u16)
        requires
            stone_distance(fresh as int),
        ensures
            final(self)@ == old(self)@.generate_bottom_line(fresh as int),
    {
        grow_line(&mut self.bottom_line, &mut self.bottom_stone_distance, fresh);
    }

    /// Appends the next cell of ground, drawing a fresh grain distance when
    /// this cell holds a grain.
    pub fn generate_ground(&mut self)
        ensures
            exists|fresh: int| #[trigger]
                grain_distance(fresh) && final(self)@ == old(self)@.generate_ground(fresh),
    {
        let fresh: u16 = draw_when_spent(
            self.grain_distance,
            GRAIN_DISTANCE_MIN,
            GRAIN_DISTANCE_END,
        );
        self.generate_ground_with(fresh);
        assert(grain_distance(fresh as int));
    }

    /// Appends the next cell of ground; `fresh` is the grain distance to
    /// restart from if this cell holds a grain.
    pub fn generate_ground_with(&mut self, fresh: u16)
        requires
            grain_distance(fresh as int),
        ensures
            final(self)@ == old(self)@.generate_ground(fresh as int),
    {
        if self.grain_distance == 0 {
            self.ground.push(true);
            self.grain_distance = fresh;
        } else {
            self.ground.push(false);
        }
        self.grain_distance -= 1;
    }

    /// One tick of the whole road, with fresh distances drawn where a
    /// countdown has run out.
    pub fn generate(&mut self)
        ensures
            exists|draws: RoadDraws| #[trigger]
                draws.valid() && final(self)@ == old(self)@.generate(draws),
    {
        self.generate_top_line();
        let ghost top_road = self@;
        self.generate_bottom_line();
        let ghost bottom_road = self@;
        self.generate_ground();
        proof {
            let top = choose|fresh: int| #[trigger]
                stone_distance(fresh) && top_road == old(self)@.generate_top_line(fresh);
            let bottom = choose|fresh: int| #[trigger]
                stone_distance(fresh) && bottom_road == top_road.generate_bottom_line(fresh);
            let grain = choose|fresh: int| #[trigger]
                grain_distance(fresh) && self@ == bottom_road.generate_ground(fresh);
            let draws = RoadDraws {
                top_stone: top as u16,
                bottom_stone: bottom as u16,
                grain: grain as u16,
            };
            assert(draws.valid() && self@ == old(self)@.generate(draws));
        }
    }

    /// One tick of the whole road with the fresh distances given.
    pub fn generate_with(&mut self, draws: &RoadDraws)
        requires
            draws.valid(),
        ensures
            final(self)@ == old(self)@.generate(*draws),
    {
        self.generate_top_line_with(draws.top_stone);
        self.generate_bottom_line_with(draws.bottom_stone);
        self.generate_ground_with(draws.grain);
    }

    /// Tells whether each of the three sequences has a cell to lose.
    pub fn can_delete_first(&self) -> (can: bool)
        ensures
            can == self@.can_delete_first(),
    {
        self.top_line.len() >= 1 && self.bottom_line.len() >= 1 && self.ground.len() >= 1
    }

    /// Drops the oldest cell of the top line, of the bottom line and of the
    /// ground.
    pub fn delete_first(&mut self)
        requires
            old(self)@.can_delete_first(),
        ensures
            final(self)@ == old(self)@.delete_first(),
    {
        self.top_line.remove(0);
        self.bottom_line.remove(0);
        self.ground.remove(0);
    }
}

/// The clouds: none so far.
#[derive(Clone, Copy, Debug, PartialEq, Eq, Structural)]
pub struct Clouds {}

impl Default for Clouds {
    fn default() -> (clouds: Clouds)
        ensures
            clouds == (Clouds {  }),
    {
        Clouds {  }
    }
}

/// What scrolls past behind the runner.
#[derive(Debug)]
pub struct Scenery {
    pub road: Road,
    pub clouds: Clouds,
}

impl Default for Scenery {
    fn default() -> (scenery: Scenery)
        ensures
            scenery.road@ == RoadView::empty(),
    {
        Scenery { road: Road::default(), clouds: Clouds::default() }
    }
}

} // verus!
