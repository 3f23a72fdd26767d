use trex_runner::game::world::objects::TrexStatus;
use trex_runner::game::world::scenery::{LineStatus, RoadDraws};
use trex_runner::game::world::theme::Color;
use trex_runner::game::world::{FrameDraws, Screen, Theme, World};

const STANDING: [(u16, u16); 7] = [(2, 22), (0, 22), (0, 21), (1, 21), (2, 21), (2, 20), (3, 20)];

fn same_world(left: &World, right: &World) -> bool {
    left.screen == right.screen
        && left.theme == right.theme
        && left.scenery.road.top_line == right.scenery.road.top_line
        && left.scenery.road.bottom_line == right.scenery.road.bottom_line
        && left.scenery.road.ground == right.scenery.road.ground
        && left.scenery.road.top_stone_distance == right.scenery.road.top_stone_distance
        && left.scenery.road.bottom_stone_distance == right.scenery.road.bottom_stone_distance
        && left.scenery.road.grain_distance == right.scenery.road.grain_distance
        && left.objects.cactuses.pixels == right.objects.cactuses.pixels
        && left.objects.cactuses.cactus_distance == right.objects.cactuses.cactus_distance
        && left.objects.trex.pixels == right.objects.trex.pixels
        && left.objects.trex.status == right.objects.trex.status
        && left.objects.trex.height == right.objects.trex.height
        && left.objects.trex.max_height == right.objects.trex.max_height
        && left.objects.trex.origin == right.objects.trex.origin
}

fn assert_steady(world: &World) {
    let width = world.screen.width as usize;
    assert_eq!(world.scenery.road.top_line.len(), width);
    assert_eq!(world.scenery.road.bottom_line.len(), width);
    assert_eq!(world.scenery.road.ground.len(), width);
    assert!(world.scenery.road.top_stone_distance < 99);
    assert!(world.scenery.road.bottom_stone_distance < 99);
    assert!(world.scenery.road.grain_distance < 19);
    assert!(world.objects.cactuses.cactus_distance < 199);
    assert!(world.objects.trex.height <= world.objects.trex.max_height);
    for cell in world.objects.cactuses.pixels.iter() {
        assert!(cell.0 >= 1);
    }
}

#[test]
fn new_world_is_empty() {
    let world = World::new(80, 24);
    assert_eq!(world.screen, Screen { width: 80, height: 24 });
    assert_eq!(world.screen, Screen::new(80, 24));
    assert!(world.scenery.road.top_line.is_empty());
    assert!(world.scenery.road.bottom_line.is_empty());
    assert!(world.scenery.road.ground.is_empty());
    assert_eq!(world.scenery.road.top_stone_distance, 0);
    assert_eq!(world.scenery.road.bottom_stone_distance, 0);
    assert_eq!(world.scenery.road.grain_distance, 0);
    assert!(world.objects.cactuses.pixels.is_empty());
    assert_eq!(world.objects.cactuses.cactus_distance, 0);
    assert_eq!(world.objects.trex.pixels, STANDING);
    assert_eq!(world.objects.trex.status, TrexStatus::OnGround);
    assert_eq!(world.objects.trex.height, 0);
    assert_eq!(world.theme, Theme::default());
}

#[test]
fn default_theme_has_its_colours() {
    let theme = Theme::default();
    assert_eq!(theme.background, Color::Blue);
    assert_eq!(theme.trex, Color::Green);
    assert_eq!(theme.trex_eye, Color::White);
    assert_eq!(theme.collided_trex, Color::Red);
    assert_eq!(theme.cloud, Color::Cyan);
    assert_eq!(theme.cactus, Color::Green);
    assert_eq!(theme.message, Color::Cyan);
    assert_eq!(theme.message_background, Color::Black);
}

#[test]
fn playable_screens() {
    assert!(Screen::new(80, 24).is_playable());
    assert!(Screen::new(0, 14).is_playable());
    assert!(Screen::new(65529, 65535).is_playable());
    assert!(!Screen::new(80, 13).is_playable());
    assert!(!Screen::new(65530, 24).is_playable());
    assert!(!Screen::new(0, 0).is_playable());
}

#[test]
fn frame_draws_in_and_out_of_range() {
    let draws = FrameDraws::minimum();
    assert_eq!(
        draws,
        FrameDraws {
            road: RoadDraws { top_stone: 50, bottom_stone: 50, grain: 10 },
            cactus_form: 1,
            cactus_distance: 100
        }
    );
    assert!(draws.is_valid());
    assert!(FrameDraws { cactus_form: 3, cactus_distance: 199, ..draws }.is_valid());
    assert!(!FrameDraws { cactus_form: 0, ..draws }.is_valid());
    assert!(!FrameDraws { cactus_form: 4, ..draws }.is_valid());
    assert!(!FrameDraws { cactus_distance: 99, ..draws }.is_valid());
    assert!(!FrameDraws { cactus_distance: 200, ..draws }.is_valid());
    assert!(!FrameDraws {
        road: RoadDraws { top_stone: 50, bottom_stone: 50, grain: 9 },
        ..draws
    }
    .is_valid());
}

#[test]
fn initiate_fills_the_road_to_the_width_of_the_screen() {
    for width in [0u16, 1, 80, 300] {
        let mut world = World::new(width, 24);
        world.initiate();
        assert_steady(&world);
        assert!(world.objects.cactuses.pixels.is_empty());
        assert_eq!(world.objects.cactuses.cactus_distance, 0);
        assert_eq!(world.objects.trex.pixels, STANDING);
        assert_eq!(world.objects.trex.status, TrexStatus::OnGround);
        if width > 0 {
            assert_eq!(world.scenery.road.top_line[0], LineStatus::StoneEnd);
            assert_eq!(world.scenery.road.bottom_line[0], LineStatus::StoneEnd);
            assert!(world.scenery.road.ground[0]);
        }
    }
}

#[test]
fn initiate_with_given_draws() {
    let mut world = World::new(4, 24);
    let draws = vec![
        RoadDraws { top_stone: 50, bottom_stone: 60, grain: 10 },
        RoadDraws { top_stone: 99, bottom_stone: 99, grain: 19 },
        RoadDraws { top_stone: 99, bottom_stone: 99, grain: 19 },
        RoadDraws { top_stone: 99, bottom_stone: 99, grain: 19 },
    ];
    world.initiate_with(&draws);
    assert_eq!(
        world.scenery.road.top_line,
        vec![LineStatus::StoneEnd, LineStatus::Line, LineStatus::Line, LineStatus::Line]
    );
    assert_eq!(world.scenery.road.bottom_line, world.scenery.road.top_line);
    assert_eq!(world.scenery.road.ground, vec![true, false, false, false]);
    assert_eq!(world.scenery.road.top_stone_distance, 46);
    assert_eq!(world.scenery.road.bottom_stone_distance, 56);
    assert_eq!(world.scenery.road.grain_distance, 6);
    assert!(world.objects.cactuses.pixels.is_empty());
    assert_eq!(world.objects.cactuses.cactus_distance, 0);
}

#[test]
fn frame_advances_every_part_once_and_drops_nothing() {
    let mut world = World::new(80, 24);
    world.objects.cactuses.pixels = vec![(1, 22), (40, 21)];
    world.objects.trex.jump();
    world.next_frame_with(&FrameDraws::minimum());
    assert_eq!(world.scenery.road.top_line, vec![LineStatus::StoneEnd]);
    assert_eq!(world.scenery.road.bottom_line, vec![LineStatus::StoneEnd]);
    assert_eq!(world.scenery.road.ground, vec![true]);
    assert_eq!(world.scenery.road.top_stone_distance, 49);
    assert_eq!(world.scenery.road.bottom_stone_distance, 49);
    assert_eq!(world.scenery.road.grain_distance, 9);
    assert_eq!(
        world.objects.cactuses.pixels,
        vec![
            (0, 22),
            (39, 21),
            (81, 22),
            (81, 21),
            (81, 20),
            (81, 19),
            (82, 21),
            (83, 21),
            (83, 20)
        ]
    );
    assert_eq!(world.objects.cactuses.cactus_distance, 99);
    assert_eq!(world.objects.trex.status, TrexStatus::Rising);
    assert_eq!(world.objects.trex.height, 1);
    assert_eq!(world.screen, Screen { width: 80, height: 24 });
    assert_eq!(world.theme, Theme::default());
}

#[test]
fn deleting_the_first_frame_trims_road_and_field() {
    let mut world = World::new(80, 24);
    world.scenery.road.top_stone_distance = 1;
    world.initiate_with(&vec![RoadDraws::minimum(); 2]);
    world.objects.cactuses.pixels = vec![(2, 22), (1, 20), (40, 21), (1, 3)];
    world.next_frame_with(&FrameDraws::minimum());
    assert_eq!(
        world.scenery.road.top_line,
        vec![LineStatus::StoneMiddle, LineStatus::StoneEnd, LineStatus::Line]
    );
    assert_eq!(world.objects.cactuses.pixels.len(), 11);
    world.delete_first_frame();
    assert_eq!(world.scenery.road.top_line, vec![LineStatus::StoneEnd, LineStatus::Line]);
    assert_eq!(world.scenery.road.bottom_line, vec![LineStatus::Line, LineStatus::Line]);
    assert_eq!(world.scenery.road.ground, vec![false, false]);
    assert_eq!(world.scenery.road.top_stone_distance, 48);
    assert_eq!(world.scenery.road.bottom_stone_distance, 47);
    assert_eq!(world.scenery.road.grain_distance, 7);
    assert_eq!(
        world.objects.cactuses.pixels,
        vec![(1, 22), (39, 21), (81, 22), (81, 21), (81, 20), (81, 19), (82, 21), (83, 21), (83, 20)]
    );
    assert_eq!(world.objects.cactuses.cactus_distance, 99);
    assert_eq!(world.objects.trex.status, TrexStatus::OnGround);
}

#[test]
fn cycles_keep_the_road_at_the_width_of_the_screen() {
    let mut world = World::new(80, 24);
    world.initiate();
    for tick in 0..1000 {
        if tick % 50 == 0 {
            world.objects.trex.jump();
        }
        world.next_frame();
        assert_eq!(world.scenery.road.top_line.len(), 81);
        world.delete_first_frame();
        assert_steady(&world);
    }
}

#[test]
fn cactus_cells_leave_at_the_left_edge() {
    let mut world = World::new(3, 24);
    world.initiate_with(&vec![RoadDraws::minimum(); 3]);
    let draws = FrameDraws { cactus_form: 2, ..FrameDraws::minimum() };
    world.next_frame_with(&draws);
    world.delete_first_frame();
    assert_eq!(world.objects.cactuses.pixels.len(), 7);
    for _ in 0..4 {
        world.next_frame_with(&draws);
        world.delete_first_frame();
    }
    assert_eq!(
        world.objects.cactuses.pixels,
        vec![(3, 22), (3, 21), (3, 20), (3, 19), (2, 21), (1, 21), (1, 20)]
    );
    world.next_frame_with(&draws);
    world.delete_first_frame();
    assert_eq!(
        world.objects.cactuses.pixels,
        vec![(2, 22), (2, 21), (2, 20), (2, 19), (1, 21)]
    );
    world.next_frame_with(&draws);
    world.delete_first_frame();
    assert_eq!(world.objects.cactuses.pixels, vec![(1, 22), (1, 21), (1, 20), (1, 19)]);
    world.next_frame_with(&draws);
    world.delete_first_frame();
    assert!(world.objects.cactuses.pixels.is_empty());
}

#[test]
fn collision_is_an_exact_meeting_of_cells() {
    for cell in STANDING {
        let mut world = World::new(80, 24);
        assert!(!world.collision());
        world.objects.cactuses.pixels = vec![(50, 22), cell, (60, 20)];
        assert!(world.collision());
    }
    let head = (3u16, 20u16);
    for near in [(4, 20), (3, 19), (3, 21), (4, 21), (4, 19), (2, 19)] {
        let mut world = World::new(80, 24);
        world.objects.cactuses.pixels = vec![near];
        assert!(!world.collision());
        world.objects.cactuses.pixels.push(head);
        assert!(world.collision());
    }
    let foot = (0u16, 22u16);
    for near in [(1, 22), (0, 23), (1, 23)] {
        let mut world = World::new(80, 24);
        world.objects.cactuses.pixels = vec![near];
        assert!(!world.collision());
        world.objects.cactuses.pixels.push(foot);
        assert!(world.collision());
    }
}

#[test]
fn collision_follows_the_runner_through_its_jump() {
    let mut world = World::new(80, 24);
    world.objects.cactuses.pixels = vec![(3, 20)];
    assert!(world.collision());
    world.objects.trex.jump();
    world.objects.trex.check_and_shift();
    assert!(!world.collision());
    world.objects.cactuses.pixels = vec![(3, 19)];
    assert!(world.collision());
}

#[test]
fn collision_does_not_change_the_world() {
    let mut world = World::new(80, 24);
    world.initiate_with(&vec![RoadDraws::minimum(); 80]);
    world.objects.cactuses.pixels = vec![(2, 22)];
    let mut copy = World::new(80, 24);
    copy.initiate_with(&vec![RoadDraws::minimum(); 80]);
    copy.objects.cactuses.pixels = vec![(2, 22)];
    assert!(world.collision());
    assert!(same_world(&world, &copy));
}

#[test]
fn reset_gives_a_new_world_on_the_same_screen() {
    let mut world = World::new(80, 24);
    world.initiate();
    world.objects.trex.jump();
    for _ in 0..130 {
        world.next_frame();
        world.delete_first_frame();
    }
    world.theme.trex = Color::Red;
    world.reset();
    assert!(same_world(&world, &World::new(80, 24)));
}

#[test]
fn reset_then_initiate_is_a_fresh_initiate() {
    let mut draws = Vec::new();
    for index in 0..80u16 {
        draws.push(RoadDraws {
            top_stone: 50 + index % 50,
            bottom_stone: 99 - index % 50,
            grain: 10 + index % 10,
        });
    }
    let mut used = World::new(80, 24);
    used.initiate();
    used.objects.trex.jump();
    for _ in 0..205 {
        used.next_frame();
        used.delete_first_frame();
    }
    used.reset();
    used.initiate_with(&draws);
    let mut fresh = World::new(80, 24);
    fresh.initiate_with(&draws);
    assert!(same_world(&used, &fresh));
    assert_steady(&used);
    assert!(used.objects.cactuses.pixels.is_empty());
    assert_eq!(used.objects.trex.status, TrexStatus::OnGround);
    assert_eq!(used.objects.trex.height, 0);

    let mut again = World::new(80, 24);
    again.initiate();
    again.reset();
    again.initiate();
    assert_steady(&again);
    assert!(again.objects.cactuses.pixels.is_empty());
    assert_eq!(again.objects.trex.status, TrexStatus::OnGround);
    assert_eq!(again.objects.trex.height, 0);
    assert_eq!(again.objects.trex.pixels, STANDING);
}

#[test]
fn two_hundred_frames_with_the_smallest_draws() {
    let mut world = World::new(80, 24);
    world.initiate();
    assert_eq!(world.scenery.road.top_line.len(), 80);
    assert_eq!(world.scenery.road.bottom_line.len(), 80);
    assert_eq!(world.scenery.road.ground.len(), 80);
    let draws = FrameDraws::minimum();
    for tick in 1..=200u16 {
        world.next_frame_with(&draws);
        world.delete_first_frame();
        assert_steady(&world);
        let on_screen = (1..=83).contains(&tick) || (101..=183).contains(&tick);
        assert_eq!(!world.objects.cactuses.pixels.is_empty(), on_screen);
        let countdown = if tick <= 100 { 100 - tick } else { 200 - tick };
        assert_eq!(world.objects.cactuses.cactus_distance as u16, countdown);
    }
    assert_eq!(world.objects.trex.status, TrexStatus::OnGround);
}

#[test]
fn cactus_is_born_in_the_frame_after_the_hundredth() {
    let mut world = World::new(80, 24);
    world.initiate();
    let draws = FrameDraws::minimum();
    for _ in 0..100 {
        world.next_frame_with(&draws);
        world.delete_first_frame();
    }
    assert!(world.objects.cactuses.pixels.is_empty());
    world.next_frame_with(&draws);
    world.delete_first_frame();
    assert_eq!(
        world.objects.cactuses.pixels,
        vec![(81, 22), (81, 21), (81, 20), (81, 19), (82, 21), (83, 21), (83, 20)]
    );
}

#[test]
fn frame_can_follow_when_nothing_would_leave_the_screen() {
    let mut world = World::new(80, 24);
    assert!(world.can_next_frame());
    world.objects.cactuses.pixels = vec![(1, 22)];
    assert!(world.can_next_frame());
    world.objects.cactuses.pixels = vec![(5, 22), (0, 22)];
    assert!(!world.can_next_frame());
    world.objects.cactuses.prune();
    assert!(world.can_next_frame());

    let mut wide = World::new(65530, 24);
    assert!(!wide.can_next_frame());
    wide.objects.cactuses.cactus_distance = 1;
    assert!(wide.can_next_frame());
    let mut flat = World::new(80, 4);
    assert!(!flat.can_next_frame());
    flat.objects.cactuses.cactus_distance = 1;
    assert!(flat.can_next_frame());
    flat.objects.trex.jump();
    assert!(!flat.can_next_frame());
    assert!(World::new(65529, 14).can_next_frame());
}
