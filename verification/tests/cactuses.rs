use trex_runner::game::world::objects::cactuses::{
    CACTUS_DISTANCE_END, CACTUS_DISTANCE_MIN, CACTUS_FORMS,
};
use trex_runner::game::world::objects::Cactuses;

#[test]
fn default_field_is_empty() {
    let cactuses = Cactuses::default();
    assert!(cactuses.pixels.is_empty());
    assert_eq!(cactuses.cactus_distance, 0);
}

#[test]
fn first_form_branches_to_the_right() {
    let mut cactuses = Cactuses::default();
    cactuses.generate_with(80, 24, 1, 100);
    assert_eq!(
        cactuses.pixels,
        vec![(81, 22), (81, 21), (81, 20), (81, 19), (82, 21), (83, 21), (83, 20)]
    );
    assert_eq!(cactuses.cactus_distance, 99);
}

#[test]
fn second_form_branches_to_the_left() {
    let mut cactuses = Cactuses::default();
    cactuses.generate_with(80, 24, 2, 150);
    assert_eq!(
        cactuses.pixels,
        vec![(84, 22), (84, 21), (84, 20), (84, 19), (83, 21), (82, 21), (82, 20)]
    );
    assert_eq!(cactuses.cactus_distance, 149);
}

#[test]
fn third_form_branches_to_both_sides() {
    let mut cactuses = Cactuses::default();
    cactuses.generate_with(80, 24, 3, 199);
    assert_eq!(
        cactuses.pixels,
        vec![
            (84, 22),
            (84, 21),
            (84, 20),
            (84, 19),
            (83, 21),
            (82, 21),
            (82, 20),
            (85, 21),
            (86, 21),
            (86, 20)
        ]
    );
    assert_eq!(cactuses.cactus_distance, 198);
}

#[test]
fn unknown_form_is_a_cactus_of_no_cells() {
    let mut cactuses = Cactuses::default();
    cactuses.generate_with(80, 24, 7, 100);
    assert!(cactuses.pixels.is_empty());
    assert_eq!(cactuses.cactus_distance, 99);
}

#[test]
fn no_cactus_is_born_while_counting() {
    let mut cactuses = Cactuses::default();
    cactuses.cactus_distance = 2;
    cactuses.generate_with(80, 24, 1, 100);
    assert!(cactuses.pixels.is_empty());
    assert_eq!(cactuses.cactus_distance, 1);
    cactuses.generate_with(80, 24, 1, 100);
    assert!(cactuses.pixels.is_empty());
    assert_eq!(cactuses.cactus_distance, 0);
    cactuses.generate_with(80, 24, 1, 100);
    assert_eq!(cactuses.pixels.len(), 7);
    assert_eq!(cactuses.cactus_distance, 99);
}

#[test]
fn new_cactus_joins_the_field_behind_the_others() {
    let mut cactuses = Cactuses { pixels: vec![(5, 22), (6, 21)], cactus_distance: 0 };
    cactuses.generate_with(10, 14, 1, 100);
    assert_eq!(
        cactuses.pixels,
        vec![(5, 22), (6, 21), (11, 12), (11, 11), (11, 10), (11, 9), (12, 11), (13, 11), (13, 10)]
    );
}

#[test]
fn cactus_on_the_widest_and_lowest_screens() {
    let mut cactuses = Cactuses::default();
    cactuses.generate_with(65529, 5, 3, 100);
    assert_eq!(cactuses.pixels[0], (65533, 3));
    assert_eq!(cactuses.pixels[3], (65533, 0));
    assert_eq!(cactuses.pixels[9], (65535, 1));
    let mut cactuses = Cactuses::default();
    cactuses.generate_with(65532, 5, 1, 100);
    assert_eq!(cactuses.pixels[6], (65535, 1));
}

#[test]
fn shift_moves_every_cell_one_column_left() {
    let mut cactuses = Cactuses { pixels: vec![(1, 22), (81, 21), (65535, 0)], cactus_distance: 42 };
    cactuses.shift();
    assert_eq!(cactuses.pixels, vec![(0, 22), (80, 21), (65534, 0)]);
    assert_eq!(cactuses.cactus_distance, 42);
}

#[test]
fn shift_of_an_empty_field_changes_nothing() {
    let mut cactuses = Cactuses::default();
    cactuses.shift();
    assert!(cactuses.pixels.is_empty());
    assert_eq!(cactuses.cactus_distance, 0);
}

#[test]
fn prune_drops_the_leftmost_column_and_keeps_the_order() {
    let mut cactuses = Cactuses {
        pixels: vec![(0, 22), (1, 22), (0, 21), (2, 21), (1, 20), (0, 0)],
        cactus_distance: 17,
    };
    cactuses.prune();
    assert_eq!(cactuses.pixels, vec![(1, 22), (2, 21), (1, 20)]);
    assert_eq!(cactuses.cactus_distance, 17);
    cactuses.prune();
    assert_eq!(cactuses.pixels, vec![(1, 22), (2, 21), (1, 20)]);
}

#[test]
fn drawn_cactus_is_of_the_catalogue() {
    let forms = [
        vec![(81, 22), (81, 21), (81, 20), (81, 19), (82, 21), (83, 21), (83, 20)],
        vec![(84, 22), (84, 21), (84, 20), (84, 19), (83, 21), (82, 21), (82, 20)],
        vec![
            (84, 22),
            (84, 21),
            (84, 20),
            (84, 19),
            (83, 21),
            (82, 21),
            (82, 20),
            (85, 21),
            (86, 21),
            (86, 20),
        ],
    ];
    assert_eq!(forms.len(), CACTUS_FORMS as usize);
    let mut seen_forms = [false; 3];
    let mut seen_distances = Vec::new();
    for _ in 0..500 {
        let mut cactuses = Cactuses::default();
        cactuses.generate(80, 24);
        let form = forms.iter().position(|form| *form == cactuses.pixels);
        assert!(form.is_some());
        seen_forms[form.unwrap()] = true;
        assert!(cactuses.cactus_distance >= CACTUS_DISTANCE_MIN - 1);
        assert!(cactuses.cactus_distance < CACTUS_DISTANCE_END - 1);
        if !seen_distances.contains(&cactuses.cactus_distance) {
            seen_distances.push(cactuses.cactus_distance);
        }
    }
    assert_eq!(seen_forms, [true, true, true]);
    assert!(seen_distances.len() > 1);
}

#[test]
fn drawing_spawner_only_counts_down_between_cactuses() {
    let mut cactuses = Cactuses { pixels: vec![(9, 9)], cactus_distance: 3 };
    cactuses.generate(80, 24);
    cactuses.generate(80, 24);
    cactuses.generate(80, 24);
    assert_eq!(cactuses.pixels, vec![(9, 9)]);
    assert_eq!(cactuses.cactus_distance, 0);
}

#[test]
fn field_is_clear_when_no_cell_is_in_the_leftmost_column() {
    assert!(Cactuses::default().is_clear_of_edge());
    let mut cactuses = Cactuses { pixels: vec![(1, 22), (5, 0), (65535, 3)], cactus_distance: 9 };
    assert!(cactuses.is_clear_of_edge());
    cactuses.pixels.push((0, 22));
    assert!(!cactuses.is_clear_of_edge());
    cactuses.prune();
    assert!(cactuses.is_clear_of_edge());
    assert_eq!(cactuses.pixels.len(), 3);
}
