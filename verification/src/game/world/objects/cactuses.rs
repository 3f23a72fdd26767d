//! The obstacle field: cactus cells that scroll left and are born in
//! clusters just beyond the right edge of the screen.

use crate::game::world::countdown::countdown;
use crate::random::draw_when_spent;
use vstd::prelude::*;

verus! {

/// A fresh cactus distance is drawn from `CACTUS_DISTANCE_MIN..CACTUS_DISTANCE_END`.
pub const CACTUS_DISTANCE_MIN: u8 = 100;

pub const CACTUS_DISTANCE_END: u8 = 200;

/// Cactus forms are numbered from 1 to `CACTUS_FORMS`.
pub const CACTUS_FORMS: u8 = 3;

/// How many rows above the screen's height the topmost cell of a cactus lies.
pub const CACTUS_TOP: u16 = 5;

/// Whether `form` names a cactus of the catalogue.
pub open spec fn cactus_form(form: int) -> bool {
    1 <= form <= CACTUS_FORMS
}

/// Whether `distance` may start a new cactus countdown.
pub open spec fn cactus_distance(distance: int) -> bool {
    CACTUS_DISTANCE_MIN <= distance < CACTUS_DISTANCE_END
}

/// The catalogue of cactus forms. A cell is given by how many columns it lies
/// right of the screen's width and how many rows above the screen's height.
/// The first form branches to the right, the second to the left, the third
/// to both sides; any other number is a cactus of no cells.
pub open spec fn cactus_shape(form: int) -> Seq<(int, int)> {
    if form == 1 {
        seq![(1, 2), (1, 3), (1, 4), (1, 5), (2, 3), (3, 3), (3, 4)]
    } else if form == 2 {
        seq![(4, 2), (4, 3), (4, 4), (4, 5), (3, 3), (2, 3), (2, 4)]
    } else if form == 3 {
        seq![(4, 2), (4, 3), (4, 4), (4, 5), (3, 3), (2, 3), (2, 4), (5, 3), (6, 3), (6, 4)]
    } else {
        Seq::empty()
    }
}

/// How many columns beyond the screen's width the rightmost cell of a form lies.
pub open spec fn cactus_reach(form: int) -> int {
    if form == 1 {
        3
    } else if form == 2 {
        4
    } else if form == 3 {
        6
    } else {
        0
    }
}

/// How many rows above the screen's height the topmost cell of a form lies.
pub open spec fn cactus_top(form: int) -> int {
    if cactus_form(form) {
        CACTUS_TOP as int
    } else {
        0
    }
}

/// Whether every cell of a new cactus of this form has coordinates that the
/// screen's cell type can hold.
pub open spec fn cactus_fits(form: int, screen_width: u16, screen_height: u16) -> bool {
    screen_width + cactus_reach(form) <= u16::MAX && screen_height >= cactus_top(form)
}

/// Whether a cactus of any form of the catalogue can be born beyond the right
/// edge of a screen of the given size.
pub open spec fn every_cactus_fits(screen_width: u16, screen_height: u16) -> bool {
    forall|form: int|
        #[trigger] cactus_form(form) ==> cactus_fits(form, screen_width, screen_height)
}

/// The cells of a new cactus on a screen of the given size.
pub open spec fn cactus_pixels(form: int, screen_width: u16, screen_height: u16) -> Seq<
    (u16, u16),
> {
    cactus_shape(form).map_values(
        |cell: (int, int)| ((screen_width + cell.0) as u16, (screen_height - cell.1) as u16),
    )
}

/// A new cactus stands wholly beyond the right edge of the screen, within the
/// reach of its form, between its top row and the row of the ground; and it
/// has seven cells, or ten if it is of the third form.
pub proof fn lemma_cactus_is_born_off_screen(form: int, screen_width: u16, screen_height: u16)
    requires
        cactus_form(form),
        cactus_fits(form, screen_width, screen_height),
    ensures
        form != 3 ==> cactus_pixels(form, screen_width, screen_height).len() == 7,
        form == 3 ==> cactus_pixels(form, screen_width, screen_height).len() == 10,
        forall|i: int|
            0 <= i < cactus_pixels(form, screen_width, screen_height).len()
                ==> screen_width < (#[trigger] cactus_pixels(form, screen_width, screen_height)[i]).0
                    <= screen_width + cactus_reach(form),
        forall|i: int|
            0 <= i < cactus_pixels(form, screen_width, screen_height).len()
                ==> screen_height - CACTUS_TOP
                    <= (#[trigger] cactus_pixels(form, screen_width, screen_height)[i]).1
                    <= screen_height - 2,
{
}

/// The obstacle field as mathematics.
pub ghost struct CactusesView {
    pub pixels: Seq<(u16, u16)>,
    pub cactus_distance: int,
}

impl CactusesView {
    /// The field before any cactus was born.
    pub open spec fn empty() -> CactusesView {
        CactusesView { pixels: Seq::empty(), cactus_distance: 0 }
    }

    /// The countdown stands where it can stand: it is not negative and below
    /// the largest distance it restarts from.
    pub open spec fn counting(self) -> bool {
        0 <= self.cactus_distance < CACTUS_DISTANCE_END - 1
    }

    /// No cell lies in the leftmost column, so every cell can move left.
    pub open spec fn clear_of_edge(self) -> bool {
        forall|i: int| 0 <= i < self.pixels.len() ==> (#[trigger] self.pixels[i]).0 >= 1
    }

    /// Every cell one column to the left.
    pub open spec fn shift(self) -> CactusesView {
        CactusesView {
            pixels: self.pixels.map_values(|cell: (u16, u16)| ((cell.0 - 1) as u16, cell.1)),
            ..self
        }
    }

    /// One tick of the spawner: a cactus of the given form is born if the
    /// countdown had run out, which then restarts from `fresh`.
    pub open spec fn generate(
        self,
        screen_width: u16,
        screen_height: u16,
        form: int,
        fresh: int,
    ) -> CactusesView {
        CactusesView {
            pixels: if self.cactus_distance == 0 {
                self.pixels + cactus_pixels(form, screen_width, screen_height)
            } else {
                self.pixels
            },
            cactus_distance: countdown(self.cactus_distance, fresh),
        }
    }

    /// The field without the cells that have reached the leftmost column.
    pub open spec fn prune(self) -> CactusesView {
        CactusesView { pixels: self.pixels.filter(|cell: (u16, u16)| cell.0 > 0), ..self }
    }
}

impl CactusesView {
    /// After pruning no cell lies in the leftmost column, and every cell that
    /// lay elsewhere is still there.
    pub proof fn lemma_prune(self)
        ensures
            self.prune().clear_of_edge(),
            self.prune().cactus_distance == self.cactus_distance,
            forall|i: int|
                0 <= i < self.pixels.len() && self.pixels[i].0 > 0
                    ==> self.prune().pixels.contains(#[trigger] self.pixels[i]),
            forall|cell: (u16, u16)|
                #[trigger] self.prune().pixels.contains(cell) ==> self.pixels.contains(cell),
    {
        let on_screen = |cell: (u16, u16)| cell.0 > 0;
        let pruned = self.prune().pixels;
        assert forall|i: int| 0 <= i < pruned.len() implies (#[trigger] pruned[i]).0 >= 1 by {
            self.pixels.lemma_filter_pred(on_screen, i);
        }
        assert forall|i: int| 0 <= i < self.pixels.len() && self.pixels[i].0 > 0
            implies pruned.contains(#[trigger] self.pixels[i]) by {
            self.pixels.lemma_filter_contains(on_screen, i);
        }
        assert forall|cell: (u16, u16)| #[trigger] pruned.contains(cell)
            implies self.pixels.contains(cell) by {
            self.pixels.lemma_filter_contains_rev(on_screen, cell);
        }
    }
}

/// The cactuses on and just beyond the screen, and the countdown to the next.
#[derive(Debug)]
pub struct Cactuses {
    pub pixels: Vec<(u16, u16)>,
    pub cactus_distance: u8,
}

impl View for Cactuses {
    type V = CactusesView;

    open spec fn view(&self) -> CactusesView {
        CactusesView { pixels: self.pixels@, cactus_distance: self.cactus_distance as int }
    }
}

impl Default for Cactuses {
    fn default() -> (cactuses: Cactuses)
        ensures
            cactuses@ == CactusesView::empty(),
    {
        Cactuses { pixels: Vec::new(), cactus_distance: 0 }
    }
}

/// The cells of a new cactus of the given form.
fn new_cactus(form: u8, screen_width: u16, screen_height: u16) -> (pixels: Vec<(u16, u16)>)
    requires
        cactus_fits(form as int, screen_width, screen_height),
    ensures
        pixels@ == cactus_pixels(form as int, screen_width, screen_height),
{
    match form {
        1 => {
            vec![
                (screen_width + 1, screen_height - 2),
                (screen_width + 1, screen_height - 3),
                (screen_width + 1, screen_height - 4),
                (screen_width + 1, screen_height - 5),
                (screen_width + 2, screen_height - 3),
                (screen_width + 3, screen_height - 3),
                (screen_width + 3, screen_height - 4),
            ]
        },
        2 => {
            vec![
                (screen_width + 4, screen_height - 2),
                (screen_width + 4, screen_height - 3),
                (screen_width + 4, screen_height - 4),
                (screen_width + 4, screen_height - 5),
                (screen_width + 3, screen_height - 3),
                (screen_width + 2, screen_height - 3),
                (screen_width + 2, screen_height - 4),
            ]
        },
        3 => {
            vec![
                (screen_width + 4, screen_height - 2),
                (screen_width + 4, screen_height - 3),
                (screen_width + 4, screen_height - 4),
                (screen_width + 4, screen_height - 5),
                (screen_width + 3, screen_height - 3),
                (screen_width + 2, screen_height - 3),
                (screen_width + 2, screen_height - 4),
                (screen_width + 5, screen_height - 3),
                (screen_width + 6, screen_height - 3),
                (screen_width + 6, screen_height - 4),
            ]
        },
        _ => Vec::new(),
    }
}

impl Cactuses {
    /// Tells whether no cell lies in the leftmost column.
    pub fn is_clear_of_edge(&self) -> (clear: bool)
        ensures
            clear == self@.clear_of_edge(),
    {
        let mut i: usize = 0;
        while i < self.pixels.len()
            invariant
                i <= self.pixels.len(),
                forall|j: int| 0 <= j < i ==> (#[trigger] self.pixels[j]).0 >= 1,
            decreases self.pixels.len() - i,
        {
            if self.pixels[i].0 == 0 {
                assert(self@.pixels[i as int].0 == 0);
                return false;
            }
            i += 1;
        }
        true
    }

    /// Moves every cell one column to the left.
    pub fn shift(&mut self)
        requires
            old(self)@.clear_of_edge(),
        ensures
            final(self)@ == old(self)@.shift(),
    {
        let mut i: usize = 0;
        while i < self.pixels.len()
            invariant
                i <= self.pixels.len(),
                self.pixels.len() == old(self).pixels.len(),
                self.cactus_distance == old(self).cactus_distance,
                old(self)@.clear_of_edge(),
                forall|j: int| 0 <= j < i ==> self.pixels[j] == old(self)@.shift().pixels[j],
                forall|j: int| i <= j < self.pixels.len() ==> self.pixels[j] == old(self).pixels[j],
            decreases self.pixels.len() - i,
        {
            let pixel = self.pixels[i];
            assert(pixel == old(self)@.pixels[i as int]);
            self.pixels[i] = (pixel.0 - 1, pixel.1);
            i += 1;
        }
        assert(self.pixels@ =~= old(self)@.shift().pixels);
    }

    /// One tick of the spawner. When the countdown has run out, a cactus of a
    /// form drawn from the catalogue is born beyond the right edge and the
    /// countdown restarts from a drawn distance; the countdown is then lowered.
    pub fn generate(&mut self, screen_width: u16, screen_height: u16)
        requires
            old(self).cactus_distance == 0 ==> every_cactus_fits(screen_width, screen_height),
        ensures
            exists|form: int, fresh: int|
                #![trigger cactus_form(form), cactus_distance(fresh)]
                cactus_form(form) && cactus_distance(fresh)
                    && final(self)@
                        == old(self)@.generate(screen_width, screen_height, form, fresh),
    {
        let spent: u16 = self.cactus_distance as u16;
        let form: u8 = draw_when_spent(spent, 1, CACTUS_FORMS as u16 + 1) as u8;
        let fresh: u8 = draw_when_spent(
            spent,
            CACTUS_DISTANCE_MIN as u16,
            CACTUS_DISTANCE_END as u16,
        ) as u8;
        assert(cactus_form(form as int) && cactus_distance(fresh as int));
        self.generate_with(screen_width, screen_height, form, fresh);
    }

    /// One tick of the spawner with the draws given: `form` is the cactus to
    /// be born and `fresh` the distance to restart from, both read only when
    /// the countdown has run out.
    pub fn generate_with(&mut self, screen_width: u16, screen_height: u16, form: u8, fresh: u8)
        requires
            cactus_distance(fresh as int),
            old(self).cactus_distance == 0 ==> cactus_fits(
                form as int,
                screen_width,
                screen_height,
            ),
        ensures
            final(self)@
                == old(self)@.generate(screen_width, screen_height, form as int, fresh as int),
    {
        if self.cactus_distance == 0 {
            let mut cactus_pixels = new_cactus(form, screen_width, screen_height);
            self.pixels.append(&mut cactus_pixels);
            self.cactus_distance = fresh;
        }
        self.cactus_distance -= 1;
    }

    /// Drops the cells that have reached the leftmost column; the others keep
    /// their order.
    pub fn prune(&mut self)
        ensures
            final(self)@ == old(self)@.prune(),
            final(self)@.clear_of_edge(),
    {
        let ghost on_screen = |cell: (u16, u16)| cell.0 > 0;
        let mut kept: Vec<(u16, u16)> = Vec::new();
        let mut i: usize = 0;
        proof {
            reveal(Seq::filter);
        }
        while i < self.pixels.len()
            invariant
                i <= self.pixels.len(),
                self.pixels == old(self).pixels,
                self.cactus_distance == old(self).cactus_distance,
                on_screen == |cell: (u16, u16)| cell.0 > 0,
                kept@ == self.pixels@.take(i as int).filter(on_screen),
                forall|j: int| 0 <= j < kept.len() ==> (#[trigger] kept[j]).0 >= 1,
            decreases self.pixels.len() - i,
        {
            let pixel = self.pixels[i];
            proof {
                assert(self.pixels@.take(i + 1).drop_last() =~= self.pixels@.take(i as int));
                reveal(Seq::filter);
            }
            if pixel.0 > 0 {
                kept.push(pixel);
            }
            i += 1;
        }
        assert(self.pixels@.take(i as int) =~= self.pixels@);
        self.pixels = kept;
    }
}

} // verus!
