use jumper404::geometry::{units, Point, Viewport, WORLD_LIMIT};
use jumper404::input::{Aim, Launch};
use jumper404::world::{Camera, Platform, Player, Session};

fn flying(x: i64, y: i64, vx: i64, vy: i64) -> Player {
    Player { x, y, vx, vy, on_ground: false }
}

fn at(x: i64, y: i64) -> Point {
    Point { x, y }
}

fn standing(x: i64, y: i64) -> Player {
    Player { x, y, vx: 0, vy: 0, on_ground: true }
}

fn session_with(platforms: Vec<Platform>, player: Player, anchor: Option<usize>) -> Session {
    let mut session = Session::new();
    session.platforms = platforms;
    session.player = Some(player);
    session.last_landed = anchor;
    assert!(session.is_wf());
    session
}

fn play_area() -> Viewport {
    Viewport { width: 800, height: 600 }
}

#[test]
fn launch_sets_velocity_from_target_and_charge() {
    let player = standing(0, units(-208));
    let launched = player.launched(Launch { target_x: units(200), charge: 500 });
    assert_eq!(launched, flying(0, units(-208), 200_000, 1_000_000));
}

#[test]
fn launch_speed_is_proportional_to_charge() {
    let player = standing(units(10), 0);
    for charge in [0u32, 1, 16, 250, 1000, 60_000, u32::MAX] {
        let launched = player.launched(Launch { target_x: units(10), charge });
        assert!(!launched.on_ground);
        assert_eq!(launched.vy, charge as i64 * 2000);
        assert_eq!(launched.vx, 0);
    }
}

#[test]
fn launch_rounds_horizontal_speed_toward_zero() {
    let player = standing(50_000_999, 0);
    assert_eq!(player.launched(Launch { target_x: units(-300), charge: 0 }).vx, -350_000);
    let origin = standing(0, 0);
    assert_eq!(origin.launched(Launch { target_x: 1999, charge: 0 }).vx, 1);
    assert_eq!(origin.launched(Launch { target_x: -1999, charge: 0 }).vx, -1);
    assert_eq!(origin.launched(Launch { target_x: 999, charge: 0 }).vx, 0);
    assert_eq!(origin.launched(Launch { target_x: -999, charge: 0 }).vx, 0);
    let far = standing(-WORLD_LIMIT, 0);
    assert_eq!(
        far.launched(Launch { target_x: WORLD_LIMIT, charge: 0 }).vx,
        10_000_000_000_000_000
    );
}

#[test]
fn integration_applies_gravity_before_moving() {
    let moved = flying(0, 0, 200_000, 1_000_000).moved(16);
    assert_eq!(moved, flying(3_200_000, 15_616_000, 200_000, 976_000));
}

#[test]
fn integration_of_a_fall() {
    let moved = flying(units(5), units(100), -3_000, 0).moved(20);
    assert_eq!(moved, flying(units(5) - 60_000, units(100) - 600_000, -3_000, -30_000));
}

#[test]
fn integration_over_no_time_changes_nothing() {
    let player = flying(7, 9, 11, -13);
    assert_eq!(player.moved(0), player);
}

#[test]
fn integration_leaves_a_grounded_player() {
    let player = standing(units(3), units(4));
    assert_eq!(player.moved(1000), player);
}

#[test]
fn integration_stops_at_the_world_limit() {
    let up = flying(0, WORLD_LIMIT - 5, 0, 1_000_000).moved(16);
    assert_eq!(up, flying(0, WORLD_LIMIT, 0, 976_000));
    let side = flying(-WORLD_LIMIT + 1, 0, -1, 1_500).moved(2);
    assert_eq!(side, flying(-WORLD_LIMIT, -3_000, -1, -1_500));
    let down = flying(0, 0, 0, i64::MIN + 10).moved(1);
    assert_eq!(down, flying(0, -WORLD_LIMIT, 0, i64::MIN));
}

#[test]
fn update_jump_moves_the_player_of_the_session() {
    let mut session = session_with(vec![], flying(0, 0, 200_000, 1_000_000), None);
    session.update_jump(16);
    assert_eq!(session.player, Some(flying(3_200_000, 15_616_000, 200_000, 976_000)));
    let mut vacant = Session::new();
    vacant.update_jump(16);
    assert_eq!(vacant, Session::new());
}

#[test]
fn platform_catches_a_player_crossing_its_top() {
    let platform = Platform { x: 0, y: 0 };
    let after = flying(units(20), units(40), 0, -200_000);
    assert!(platform.catches(after, at(units(20), units(43)), 16));
    assert!(!platform.catches(after, at(units(20), units(41)), 16));
    assert!(!platform.catches(flying(0, units(43), 0, -10), at(0, units(43)), 16));
}

#[test]
fn platform_catches_by_the_place_before_the_step() {
    let platform = Platform { x: 0, y: 0 };
    let after = flying(units(90), units(40), 500_000, -200_000);
    assert!(platform.catches(after, at(units(82) - 1, units(43)), 16));
    assert!(!platform.catches(after, at(units(82), units(43)), 16));
    assert!(platform.catches(after, at(units(-82) + 1, units(43)), 16));
    assert!(!platform.catches(after, at(units(-82), units(43)), 16));
    let back = flying(0, units(40), -500_000, -200_000);
    assert!(!platform.catches(back, at(units(90), units(43)), 16));
}

#[test]
fn platform_catches_on_both_ends_of_the_sweep() {
    let platform = Platform { x: 0, y: 0 };
    assert!(platform.catches(flying(0, units(42), 0, 0), at(0, units(42)), 16));
    assert!(platform.catches(flying(0, units(42), 0, -1), at(0, units(42)), 16));
    assert!(!platform.catches(flying(0, units(42), 0, 1), at(0, units(42)), 16));
    assert!(platform.catches(flying(0, units(42), 0, -62_500), at(0, units(43)), 16));
    assert!(!platform.catches(flying(0, units(42), 0, -62_499), at(0, units(43)), 16));
}

#[test]
fn landing_snaps_the_player_onto_the_platform() {
    let platforms = vec![Platform { x: 0, y: 0 }];
    let mut session = session_with(platforms, flying(units(20), units(40), 0, -200_000), None);
    assert_eq!(session.landing(at(units(20), units(43)), 16), Some(0));
    assert_eq!(session.player, Some(standing(units(20), units(42))));
    assert_eq!(session.last_landed, Some(0));
    assert!(session.pending_spawn);
    assert!(session.is_wf());
}

#[test]
fn fast_fall_does_not_tunnel_through_a_platform() {
    let platforms = vec![Platform { x: 0, y: 0 }];
    let mut session = session_with(platforms, flying(0, units(43), 0, -10_000_000), None);
    session.update_jump(16);
    assert_eq!(session.player, Some(flying(0, units(43) - 160_384_000, 0, -10_024_000)));
    assert_eq!(session.landing(at(0, units(43)), 16), Some(0));
    assert_eq!(session.player, Some(standing(0, units(42))));
}

#[test]
fn landing_keeps_the_x_reached_in_the_step() {
    let platforms = vec![Platform { x: 0, y: 0 }];
    let mut session = session_with(platforms, flying(units(70), units(43), 1_000_000, 0), None);
    session.update_jump(16);
    assert_eq!(session.player, Some(flying(units(86), units(43) - 384_000, 1_000_000, -24_000)));
    assert_eq!(session.landing(at(units(70), units(43)), 16), None);
    session.player = Some(flying(units(86), units(42) - 384_000, 1_000_000, -24_000));
    assert_eq!(session.landing(at(units(70), units(42)), 16), Some(0));
    assert_eq!(session.player, Some(standing(units(86), units(42))));
}

#[test]
fn landing_takes_the_first_platform_in_creation_order() {
    let platforms = vec![
        Platform { x: units(500), y: 0 },
        Platform { x: units(30), y: 0 },
        Platform { x: units(-30), y: 0 },
    ];
    let mut session = session_with(platforms, flying(0, units(40), 0, -200_000), Some(0));
    assert_eq!(session.landing(at(0, units(43)), 16), Some(1));
    assert_eq!(session.last_landed, Some(1));
}

#[test]
fn landing_below_the_highest_platform_keeps_anchor_and_debt() {
    let platforms = vec![Platform { x: 0, y: 0 }, Platform { x: units(300), y: units(200) }];
    let mut session = session_with(platforms, flying(0, units(40), 0, -200_000), Some(1));
    assert_eq!(session.landing(at(0, units(43)), 16), Some(0));
    assert_eq!(session.player, Some(standing(0, units(42))));
    assert_eq!(session.last_landed, Some(1));
    assert!(!session.pending_spawn);
}

#[test]
fn landing_on_the_second_of_two_equally_high_platforms() {
    let platforms = vec![Platform { x: 0, y: units(100) }, Platform { x: units(300), y: units(100) }];
    let mut session = session_with(platforms, flying(units(300), units(147), 0, 0), Some(0));
    session.update_jump(100);
    assert_eq!(session.player, Some(flying(units(300), units(132), 0, -150_000)));
    assert_eq!(session.landing(at(units(300), units(147)), 100), Some(1));
    assert_eq!(session.player, Some(standing(units(300), units(142))));
    assert!(session.pending_spawn);
    assert_eq!(session.last_landed, Some(1));
}

#[test]
fn landing_where_two_equally_high_platforms_overlap() {
    let platforms = vec![Platform { x: 0, y: units(100) }, Platform { x: units(100), y: units(100) }];
    let mut session = session_with(platforms, flying(units(50), units(132), 0, -150_000), Some(0));
    assert_eq!(session.landing(at(units(50), units(147)), 100), Some(0));
    assert_eq!(session.last_landed, Some(0));
    assert!(session.pending_spawn);
}

#[test]
fn no_landing_while_rising_or_beside_the_platform() {
    let platforms = vec![Platform { x: 0, y: 0 }];
    let rising = flying(0, units(50), 0, 500_000);
    let mut session = session_with(platforms.clone(), rising, None);
    assert_eq!(session.landing(at(0, units(42)), 16), None);
    assert_eq!(session.player, Some(rising));
    let beside = flying(units(200), units(40), 0, -200_000);
    let mut session = session_with(platforms.clone(), beside, None);
    assert_eq!(session.landing(at(units(200), units(43)), 16), None);
    assert_eq!(session.player, Some(beside));
    let below = flying(0, units(-50), 0, -200_000);
    let mut session = session_with(platforms, below, None);
    assert_eq!(session.landing(at(0, units(-47)), 16), None);
    assert!(!session.pending_spawn);
}

#[test]
fn no_landing_for_a_grounded_or_missing_player() {
    let platforms = vec![Platform { x: 0, y: 0 }];
    let mut session = session_with(platforms.clone(), standing(0, units(42)), None);
    let before = session.clone();
    assert_eq!(session.landing(at(0, units(42)), 16), None);
    assert_eq!(session, before);
    let mut vacant = Session::new();
    vacant.platforms = platforms;
    let before = vacant.clone();
    assert_eq!(vacant.landing(at(0, 0), 16), None);
    assert_eq!(vacant, before);
}

#[test]
fn no_landing_without_platforms() {
    let mut session = session_with(vec![], flying(0, 0, 0, -5), None);
    assert_eq!(session.landing(at(0, 5), 16), None);
    assert_eq!(session.last_landed, None);
    assert!(!session.pending_spawn);
}

#[test]
fn respawn_puts_the_player_on_the_anchor() {
    let platforms = vec![Platform { x: units(50), y: units(100) }];
    let mut session = session_with(platforms, flying(units(300), units(-365), 0, -900_000), Some(0));
    session.camera = Camera { x: units(12), y: units(-40) };
    session.respawn(play_area());
    assert_eq!(session.player, Some(standing(units(50), units(142))));
    assert_eq!(session.camera, Camera { x: 0, y: units(100) });
    assert!(session.is_wf());
}

#[test]
fn fall_from_500_respawns_on_the_anchor() {
    let platforms = vec![Platform { x: units(50), y: units(100) }];
    let mut session = session_with(platforms, flying(units(300), units(500), 0, 0), Some(0));
    let mut frames = 0;
    while !session.player.unwrap().on_ground {
        session.advance(16, &vec![], Some(play_area()));
        frames += 1;
        assert!(frames < 200);
    }
    assert!(frames > 60);
    assert_eq!(session.player, Some(standing(units(50), units(142))));
    assert_eq!(session.camera, Camera { x: 0, y: units(100) });
    assert_eq!(session.last_landed, Some(0));
}

#[test]
fn respawn_without_an_anchor_goes_to_the_origin() {
    let platforms = vec![Platform { x: units(50), y: units(100) }, Platform { x: 0, y: units(230) }];
    let mut session = session_with(platforms, flying(units(300), units(-400), 3, -9), None);
    session.respawn(play_area());
    assert_eq!(session.player, Some(standing(0, 0)));
    assert_eq!(session.camera, Camera { x: 0, y: units(230) });
}

#[test]
fn respawn_without_platforms_centres_the_camera_at_zero() {
    let mut session = session_with(vec![], flying(0, units(-400), 0, -9), None);
    session.camera = Camera { x: 5, y: 6 };
    session.respawn(play_area());
    assert_eq!(session.player, Some(standing(0, 0)));
    assert_eq!(session.camera, Camera { x: 0, y: 0 });
}

#[test]
fn respawn_only_below_the_bottom_limit() {
    let platforms = vec![Platform { x: units(50), y: units(100) }];
    let at_limit = flying(0, units(-364), 0, -9);
    let mut session = session_with(platforms.clone(), at_limit, Some(0));
    session.camera = Camera { x: 5, y: 6 };
    let before = session.clone();
    session.respawn(play_area());
    assert_eq!(session, before);
    session.player = Some(flying(0, units(-364) - 1, 0, -9));
    session.respawn(play_area());
    assert_eq!(session.player, Some(standing(units(50), units(142))));
    let mut vacant = Session::new();
    vacant.platforms = platforms;
    let before = vacant.clone();
    vacant.respawn(play_area());
    assert_eq!(vacant, before);
}

#[test]
fn respawn_recovers_a_grounded_player_too() {
    let platforms = vec![Platform { x: 0, y: units(-500) }, Platform { x: units(50), y: units(100) }];
    let mut session = session_with(platforms, standing(0, units(-458)), Some(1));
    session.aim = Aim::Charging(30);
    session.respawn(play_area());
    assert_eq!(session.player, Some(standing(units(50), units(142))));
    assert_eq!(session.aim, Aim::Charging(30));
}

#[test]
fn advance_without_a_viewport_skips_the_fall_check() {
    let mut session = session_with(vec![], flying(0, units(-1000), 0, 0), None);
    session.advance(10, &vec![], None);
    assert_eq!(session.player, Some(flying(0, units(-1000) - 150_000, 0, -15_000)));
}

#[test]
fn a_weak_tap_lands_on_the_platform_it_left() {
    let mut session = Session::setup_game(play_area());
    session.aim = Aim::Charging(3);
    let release = jumper404::input::InputEvent {
        kind: jumper404::input::EventKind::Release,
        pointer_x: units(410),
    };
    session.advance(16, &vec![release], Some(play_area()));
    assert_eq!(session.player, Some(standing(160_000, units(-208))));
    assert_eq!(session.aim, Aim::Idle);
    assert!(session.pending_spawn);
}
