//! The world of a run: the screen, the scenery, the runner and the cactuses,
//! advanced one frame at a time.

pub mod countdown;
pub mod objects;
pub mod scenery;
pub mod screen;
pub mod theme;

pub use screen::Screen;
pub use theme::Theme;

use objects::cactuses::{
    cactus_distance, cactus_form, every_cactus_fits, CactusesView, CACTUS_DISTANCE_END,
    CACTUS_DISTANCE_MIN, CACTUS_FORMS, CACTUS_TOP,
};
use objects::trex::{Trex, TREX_TOP};
use objects::Objects;
use scenery::{valid_road_draws, RoadDraws, RoadView, Scenery};
use vstd::prelude::*;

verus! {

/// Everything that one frame may draw: the fresh distances of the road, and
/// the form and the fresh distance of a cactus.
#[derive(Clone, Copy, Debug, PartialEq, Eq, Structural)]
pub struct FrameDraws {
    pub road: RoadDraws,
    pub cactus_form: u8,
    pub cactus_distance: u8,
}

impl FrameDraws {
    /// Each draw lies in the range that it is drawn from.
    pub open spec fn valid(self) -> bool {
        &&& self.road.valid()
        &&& cactus_form(self.cactus_form as int)
        &&& cactus_distance(self.cactus_distance as int)
    }

    /// The smallest number of each range.
    pub fn minimum() -> (draws: FrameDraws)
        ensures
            draws == (FrameDraws {
                road: RoadDraws {
                    top_stone: scenery::STONE_DISTANCE_MIN,
                    bottom_stone: scenery::STONE_DISTANCE_MIN,
                    grain: scenery::GRAIN_DISTANCE_MIN,
                },
                cactus_form: 1,
                cactus_distance: CACTUS_DISTANCE_MIN,
            }),
            draws.valid(),
    {
        FrameDraws {
            road: RoadDraws::minimum(),
            cactus_form: 1,
            cactus_distance: CACTUS_DISTANCE_MIN,
        }
    }

    /// Tells whether each draw lies in its range.
    pub fn is_valid(&self) -> (valid: bool)
        ensures
            valid == self.valid(),
    {
        self.road.is_valid() && 1 <= self.cactus_form && self.cactus_form <= CACTUS_FORMS
            && CACTUS_DISTANCE_MIN <= self.cactus_distance && self.cactus_distance
            < CACTUS_DISTANCE_END
    }
}

/// Whether every one of the draws is valid.
pub open spec fn valid_frame_draws(draws: Seq<FrameDraws>) -> bool {
    forall|i: int| 0 <= i < draws.len() ==> (#[trigger] draws[i]).valid()
}

/// The world as mathematics.
pub ghost struct WorldView {
    pub screen: Screen,
    pub road: RoadView,
    pub trex: Trex,
    pub cactuses: CactusesView,
    pub theme: Theme,
}

impl WorldView {
    /// The world before its first frame: an empty road, no cactus, the runner
    /// on the ground.
    pub open spec fn spec_new(screen: Screen) -> WorldView {
        WorldView {
            screen,
            road: RoadView::empty(),
            trex: Trex::spec_new(screen.height),
            cactuses: CactusesView::empty(),
            theme: Theme::spec_default(),
        }
    }

    /// The world with its road grown by one tick for each of the draws.
    pub open spec fn initiate(self, draws: Seq<RoadDraws>) -> WorldView {
        WorldView { road: self.road.generate_all(draws), ..self }
    }

    /// Whether a frame can follow: no cactus cell lies in the leftmost column,
    /// a cactus that is due has room to be born, and the runner can make the
    /// move that its jump asks for.
    pub open spec fn can_next_frame(self) -> bool {
        &&& self.cactuses.clear_of_edge()
        &&& self.cactuses.cactus_distance == 0
            ==> every_cactus_fits(self.screen.width, self.screen.height)
        &&& self.trex.spec_can_check_and_shift()
    }

    /// The world one frame later: the road has grown by a cell, the cactuses
    /// have moved left and one may have been born, the runner has made one
    /// tick of its jump.
    pub open spec fn next_frame(self, draws: FrameDraws) -> WorldView {
        WorldView {
            road: self.road.generate(draws.road),
            cactuses: self.cactuses.shift().generate(
                self.screen.width,
                self.screen.height,
                draws.cactus_form as int,
                draws.cactus_distance as int,
            ),
            trex: self.trex.spec_check_and_shift(),
            ..self
        }
    }

    /// The world without what has scrolled off the screen: the oldest cell of
    /// the road's three sequences, and the cactus cells of the leftmost column.
    pub open spec fn delete_first_frame(self) -> WorldView {
        WorldView { road: self.road.delete_first(), cactuses: self.cactuses.prune(), ..self }
    }

    /// Whether some cactus cell is a cell of the runner.
    pub open spec fn collision(self) -> bool {
        exists|i: int, j: int|
            0 <= i < self.cactuses.pixels.len() && 0 <= j < 7
                && #[trigger] self.cactuses.pixels[i] == #[trigger] self.trex.pixels[j]
    }

    /// The world is consistent: the screen can hold a run, the runner is
    /// consistent, and every countdown stands where it can stand.
    pub open spec fn wf(self) -> bool {
        &&& self.screen.playable()
        &&& self.trex.wf()
        &&& self.road.counting()
        &&& self.cactuses.counting()
    }

    /// The world between two frames of a run: consistent, with the road
    /// exactly as long as the screen is wide and no cactus cell in the
    /// leftmost column.
    pub open spec fn steady(self) -> bool {
        &&& self.wf()
        &&& self.road.filled_to(self.screen.width as int)
        &&& self.cactuses.clear_of_edge()
    }
}

impl WorldView {
    /// The world after a reset: what it was before its first frame, on the
    /// same screen.
    pub open spec fn reset(self) -> WorldView {
        WorldView::spec_new(self.screen)
    }

    /// One cycle of a run: a frame, and then what scrolled off is dropped.
    pub open spec fn cycle(self, draws: FrameDraws) -> WorldView {
        self.next_frame(draws).delete_first_frame()
    }

    /// As many cycles as there are draws, each with its own.
    pub open spec fn run(self, draws: Seq<FrameDraws>) -> WorldView
        decreases draws.len(),
    {
        if draws.len() == 0 {
            self
        } else {
            self.run(draws.drop_last()).cycle(draws.last())
        }
    }

    /// A new world whose road was grown by as many valid ticks as its screen
    /// is wide is steady: the top line, the bottom line and the ground are
    /// each exactly as long as the screen is wide.
    pub proof fn lemma_initiate_is_steady(screen: Screen, draws: Seq<RoadDraws>)
        requires
            screen.playable(),
            draws.len() == screen.width,
            valid_road_draws(draws),
        ensures
            WorldView::spec_new(screen).initiate(draws).steady(),
    {
        WorldView::spec_new(screen).road.lemma_generate_all_grows(draws);
    }

    /// A frame can always follow on a steady world, what scrolled off can
    /// always be dropped after it, and the world is steady again: its three
    /// sequences keep the screen's width, no cactus cell has reached the
    /// leftmost column, and no countdown has fallen below zero.
    pub proof fn lemma_cycle_keeps_steady(self, draws: FrameDraws)
        requires
            self.steady(),
            draws.valid(),
        ensures
            self.can_next_frame(),
            self.next_frame(draws).wf(),
            self.next_frame(draws).road.can_delete_first(),
            self.cycle(draws).steady(),
    {
        self.trex.lemma_tick_keeps_wf();
        self.next_frame(draws).cactuses.lemma_prune();
    }

    /// A steady world is steady after any number of cycles with valid draws.
    pub proof fn lemma_run_keeps_steady(self, draws: Seq<FrameDraws>)
        requires
            self.steady(),
            valid_frame_draws(draws),
        ensures
            self.run(draws).steady(),
        decreases draws.len(),
    {
        if draws.len() > 0 {
            self.lemma_run_keeps_steady(draws.drop_last());
            self.run(draws.drop_last()).lemma_cycle_keeps_steady(draws.last());
        }
    }

    /// A collision is an exact meeting of cells: the runner has hit a cactus
    /// if and only if the cactus cells and the runner's cells, taken as sets,
    /// have a cell in common.
    pub proof fn lemma_collision_is_exact(self)
        ensures
            self.collision()
                <==> !self.cactuses.pixels.to_set().disjoint(self.trex.pixels@.to_set()),
    {
        let cactuses = self.cactuses.pixels;
        let runner = self.trex.pixels@;
        if self.collision() {
            let (i, j) = choose|i: int, j: int|
                0 <= i < cactuses.len() && 0 <= j < 7
                    && #[trigger] self.cactuses.pixels[i] == #[trigger] self.trex.pixels[j];
            let cell = cactuses[i];
            assert(cactuses.to_set().contains(cell) && runner.to_set().contains(cell));
        }
        if !cactuses.to_set().disjoint(runner.to_set()) {
            let cell = choose|cell: (u16, u16)|
                cactuses.to_set().contains(cell) && runner.to_set().contains(cell);
            assert(cactuses.contains(cell) && runner.contains(cell));
        }
    }

    /// A reset followed by growing the road gives, draw for draw, the world
    /// that a new world on the same screen gives: steady, with no cactus, and
    /// the runner on the ground at height zero.
    pub proof fn lemma_reset_starts_over(self, draws: Seq<RoadDraws>)
        requires
            self.screen.playable(),
            draws.len() == self.screen.width,
            valid_road_draws(draws),
        ensures
            self.reset().initiate(draws) == WorldView::spec_new(self.screen).initiate(draws),
            self.reset().initiate(draws).steady(),
            self.reset().initiate(draws).cactuses == CactusesView::empty(),
            self.reset().initiate(draws).trex == Trex::spec_new(self.screen.height),
            self.reset().initiate(draws).trex.status == objects::trex::TrexStatus::OnGround,
            self.reset().initiate(draws).trex.height == 0,
    {
        Self::lemma_initiate_is_steady(self.screen, draws);
    }
}

/// The world of a run.
#[derive(Debug)]
pub struct World {
    pub screen: Screen,
    pub scenery: Scenery,
    pub objects: Objects,
    pub theme: Theme,
}

impl View for World {
    type V = WorldView;

    open spec fn view(&self) -> WorldView {
        WorldView {
            screen: self.screen,
            road: self.scenery.road@,
            trex: self.objects.trex,
            cactuses: self.objects.cactuses@,
            theme: self.theme,
        }
    }
}

impl World {
    /// The world before its first frame, for a screen of the given size.
    pub fn new(width: u16, height: u16) -> (world: World)
        requires
            height >= TREX_TOP,
        ensures
            world@ == WorldView::spec_new(Screen { width, height }),
            (Screen { width, height }).playable() ==> world@.wf(),
    {
        World {
            screen: Screen::new(width, height),
            scenery: Scenery::default(),
            objects: Objects::new(height),
            theme: Theme::default(),
        }
    }

    /// Grows the road by as many ticks as the screen is wide, so that the
    /// first frame shows a full road.
    pub fn initiate(&mut self)
        ensures
            exists|draws: Seq<RoadDraws>|
                draws.len() == old(self).screen.width && #[trigger] valid_road_draws(draws)
                    && final(self)@ == old(self)@.initiate(draws),
            old(self)@.wf() && old(self)@.road.filled_to(0) && old(self)@.cactuses.clear_of_edge()
                ==> final(self)@.steady(),
    {
        let ghost mut drawn: Seq<RoadDraws> = Seq::empty();
        let mut i: u16 = 0;
        while i < self.screen.width
            invariant
                i <= self.screen.width,
                drawn.len() == i,
                valid_road_draws(drawn),
                self@ == old(self)@.initiate(drawn),
            decreases self.screen.width - i,
        {
            let ghost before = self.scenery.road@;
            self.scenery.road.generate();
            proof {
                let draws = choose|draws: RoadDraws| #[trigger]
                    draws.valid() && self.scenery.road@ == before.generate(draws);
                assert(drawn.push(draws).drop_last() =~= drawn);
                drawn = drawn.push(draws);
            }
            i += 1;
        }
        proof {
            old(self)@.road.lemma_generate_all_grows(drawn);
        }
    }

    /// Grows the road by one tick for each of the draws.
    pub fn initiate_with(&mut self, draws: &Vec<RoadDraws>)
        requires
            valid_road_draws(draws@),
        ensures
            final(self)@ == old(self)@.initiate(draws@),
    {
        let mut i: usize = 0;
        while i < draws.len()
            invariant
                i <= draws.len(),
                valid_road_draws(draws@),
                self@ == old(self)@.initiate(draws@.take(i as int)),
            decreases draws.len() - i,
        {
            self.scenery.road.generate_with(&draws[i]);
            proof {
                assert(draws@.take(i + 1).drop_last() =~= draws@.take(i as int));
            }
            i += 1;
        }
        assert(draws@.take(i as int) =~= draws@);
    }

    /// Tells whether a frame can follow.
    pub fn can_next_frame(&self) -> (can: bool)
        ensures
            can == self@.can_next_frame(),
    {
        proof {
            assert(cactus_form(CACTUS_FORMS as int));
        }
        let clear = self.objects.cactuses.is_clear_of_edge();
        let room = self.objects.cactuses.cactus_distance != 0 || (self.screen.width
            <= screen::MAX_PLAYABLE_WIDTH && self.screen.height >= CACTUS_TOP);
        clear && room && self.objects.trex.can_check_and_shift()
    }

    /// Advances the world by one frame, drawing what the frame needs.
    pub fn next_frame(&mut self)
        requires
            old(self)@.can_next_frame(),
        ensures
            exists|draws: FrameDraws| #[trigger]
                draws.valid() && final(self)@ == old(self)@.next_frame(draws),
            old(self)@.wf() ==> final(self)@.wf(),
    {
        self.scenery.road.generate();
        self.objects.cactuses.shift();
        let ghost shifted = self.objects.cactuses@;
        self.objects.cactuses.generate(self.screen.width, self.screen.height);
        self.objects.trex.check_and_shift();
        proof {
            let road = choose|draws: RoadDraws| #[trigger]
                draws.valid() && self.scenery.road@ == old(self).scenery.road@.generate(draws);
            let (form, fresh) = choose|form: int, fresh: int|
                #![trigger cactus_form(form), cactus_distance(fresh)]
                cactus_form(form) && cactus_distance(fresh)
                    && self.objects.cactuses@
                        == shifted.generate(self.screen.width, self.screen.height, form, fresh);
            let draws = FrameDraws {
                road,
                cactus_form: form as u8,
                cactus_distance: fresh as u8,
            };
            assert(draws.valid() && self@ == old(self)@.next_frame(draws));
            if old(self)@.wf() {
                old(self)@.trex.lemma_tick_keeps_wf();
            }
        }
    }

    /// Advances the world by one frame with the draws given.
    pub fn next_frame_with(&mut self, draws: &FrameDraws)
        requires
            draws.valid(),
            old(self)@.can_next_frame(),
        ensures
            final(self)@ == old(self)@.next_frame(*draws),
            old(self)@.wf() ==> final(self)@.wf(),
    {
        self.scenery.road.generate_with(&draws.road);
        self.objects.cactuses.shift();
        self.objects.cactuses.generate_with(
            self.screen.width,
            self.screen.height,
            draws.cactus_form,
            draws.cactus_distance,
        );
        self.objects.trex.check_and_shift();
    }

    /// Drops what has scrolled off the screen: the oldest cell of the top
    /// line, of the bottom line and of the ground, and the cactus cells that
    /// have reached the leftmost column.
    pub fn delete_first_frame(&mut self)
        requires
            old(self)@.road.can_delete_first(),
        ensures
            final(self)@ == old(self)@.delete_first_frame(),
            final(self)@.cactuses.clear_of_edge(),
            old(self)@.wf() ==> final(self)@.wf(),
    {
        self.scenery.road.delete_first();
        self.objects.cactuses.prune();
    }

    /// Tells whether the runner has hit a cactus: whether some cactus cell is
    /// exactly a cell of the runner.
    pub fn collision(&self) -> (hit: bool)
        ensures
            hit == self@.collision(),
    {
        let mut i: usize = 0;
        while i < self.objects.cactuses.pixels.len()
            invariant
                i <= self.objects.cactuses.pixels.len(),
                forall|k: int, j: int|
                    0 <= k < i && 0 <= j < 7
                        ==> #[trigger] self.objects.cactuses.pixels[k]
                            != #[trigger] self.objects.trex.pixels[j],
            decreases self.objects.cactuses.pixels.len() - i,
        {
            let cell = self.objects.cactuses.pixels[i];
            let mut j: usize = 0;
            while j < 7
                invariant
                    j <= 7,
                    i < self.objects.cactuses.pixels.len(),
                    cell == self.objects.cactuses.pixels[i as int],
                    forall|k: int| 0 <= k < j ==> cell != #[trigger] self.objects.trex.pixels[k],
                decreases 7 - j,
            {
                let pixel = self.objects.trex.pixels[j];
                if pixel.0 == cell.0 && pixel.1 == cell.1 {
                    assert(self@.cactuses.pixels[i as int] == self@.trex.pixels[j as int]);
                    return true;
                }
                j += 1;
            }
            i += 1;
        }
        false
    }

    /// Starts over on the same screen: the world becomes what it was before
    /// its first frame.
    pub fn reset(&mut self)
        requires
            old(self).screen.height >= TREX_TOP,
        ensures
            final(self)@ == old(self)@.reset(),
    {
        *self = World::new(self.screen.width, self.screen.height);
    }
}

} // verus!
