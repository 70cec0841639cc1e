use jumper404::generator::{clear_of, rise};
use jumper404::geometry::{units, Viewport, PLATFORM_LIMIT};
use jumper404::world::{Platform, Player, Session};

fn wide() -> Viewport {
    Viewport { width: 800, height: 600 }
}

fn grounded_on(platforms: Vec<Platform>, anchor: Option<usize>) -> Session {
    let mut session = Session::new();
    session.player = Some(Player { x: 0, y: 0, vx: 0, vy: 0, on_ground: true });
    session.platforms = platforms;
    session.last_landed = anchor;
    session.pending_spawn = true;
    assert!(session.is_wf());
    session
}

#[test]
fn spawn_range_of_a_viewport() {
    assert_eq!(wide().spawn_min_x(), units(-350));
    assert_eq!(wide().spawn_max_x(), units(350));
    assert_eq!(Viewport { width: 50, height: 600 }.spawn_min_x(), units(25));
    assert_eq!(Viewport { width: 50, height: 600 }.spawn_max_x(), units(-25));
}

#[test]
fn candidate_maps_a_draw_into_the_range() {
    assert_eq!(wide().candidate_x(0), units(-350));
    assert_eq!(wide().candidate_x(350_000_000), 0);
    assert_eq!(wide().candidate_x(700_000_000), units(350));
    assert_eq!(wide().candidate_x(700_000_001), units(-350));
    assert_eq!(wide().candidate_x(700_000_002), units(-350) + 1);
    let x = wide().candidate_x(u64::MAX);
    assert_eq!(x, units(-350) + (u64::MAX % 700_000_001) as i64);
    let point = Viewport { width: 100, height: 600 };
    assert_eq!(point.candidate_x(12345), 0);
}

#[test]
fn clear_of_asks_for_more_than_a_platform_width() {
    assert!(!clear_of(units(100), 0));
    assert!(clear_of(units(100) + 1, 0));
    assert!(!clear_of(units(-100), 0));
    assert!(clear_of(units(-100) - 1, 0));
    assert!(!clear_of(units(30), units(30)));
    assert!(clear_of(i64::MAX, i64::MIN));
    assert!(clear_of(units(-70) - 1, units(30)));
}

#[test]
fn rise_lies_between_50_and_150() {
    assert_eq!(rise(0), units(50));
    assert_eq!(rise(25_000_000), units(75));
    assert_eq!(rise(100_000_000), units(150));
    assert_eq!(rise(100_000_001), units(50));
    assert_eq!(rise(u64::MAX), units(50) + (u64::MAX % 100_000_001) as i64);
}

#[test]
fn fallback_prefers_the_right_side_in_range() {
    assert_eq!(wide().fallback_x(0), units(100) + 1);
    assert_eq!(wide().fallback_x(units(249)), units(349) + 1);
    assert_eq!(wide().fallback_x(units(-1000)), units(-350));
}

#[test]
fn fallback_takes_the_left_side_when_the_right_is_out_of_range() {
    assert_eq!(wide().fallback_x(units(300)), units(200) - 1);
    assert_eq!(wide().fallback_x(units(250)), units(150) - 1);
    assert_eq!(wide().fallback_x(units(1000)), units(350));
}

#[test]
fn fallback_in_a_narrow_viewport_steps_toward_the_centre() {
    let narrow = Viewport { width: 150, height: 600 };
    assert_eq!(narrow.fallback_x(0), units(100) + 1);
    assert_eq!(narrow.fallback_x(units(10)), units(-90) - 1);
    assert_eq!(narrow.fallback_x(units(-10)), units(90) + 1);
    let tiny = Viewport { width: 50, height: 600 };
    assert_eq!(tiny.fallback_x(0), units(100) + 1);
    assert_eq!(tiny.fallback_x(PLATFORM_LIMIT), PLATFORM_LIMIT - units(100) - 1);
    assert_eq!(tiny.fallback_x(-PLATFORM_LIMIT), -PLATFORM_LIMIT + units(100) + 1);
}

#[test]
fn pick_takes_the_first_clear_candidate() {
    let draws = vec![350_000_000, 450_000_000, 450_000_001, 0];
    assert_eq!(wide().pick_x(&draws, 0), units(100) + 1);
    assert_eq!(wide().pick_x(&vec![0, 350_000_000], 0), units(-350));
    assert_eq!(wide().pick_x(&vec![350_000_000, 250_000_000, 20], 0), units(-350) + 20);
}

#[test]
fn pick_falls_back_when_every_draw_is_rejected() {
    let rejected = vec![350_000_000; 64];
    assert_eq!(wide().pick_x(&rejected, 0), units(100) + 1);
    assert_eq!(wide().pick_x(&vec![], units(300)), units(200) - 1);
}

#[test]
fn pick_in_a_viewport_without_room_is_the_fallback() {
    let narrow = Viewport { width: 150, height: 600 };
    assert_eq!(narrow.pick_x(&vec![0, 1, 2, 50_000_000], 0), units(100) + 1);
    let tiny = Viewport { width: 50, height: 600 };
    assert_eq!(tiny.pick_x(&vec![0, 1, 2], units(5)), units(-95) - 1);
}

#[test]
fn spawn_with_draws_places_one_platform() {
    let mut session = Session::setup_game(wide());
    session.spawn_platform_with(wide(), &vec![350_000_000, 600_000_000], 25_000_000);
    assert_eq!(
        session.platforms,
        vec![Platform { x: 0, y: units(-250) }, Platform { x: units(250), y: units(-175) }]
    );
    assert!(!session.pending_spawn);
    assert_eq!(session.last_landed, Some(0));
    assert!(session.is_wf());
}

#[test]
fn spawn_is_consumed_once() {
    let mut session = Session::setup_game(wide());
    session.spawn_platform_with(wide(), &vec![600_000_000], 0);
    let once = session.clone();
    session.spawn_platform_with(wide(), &vec![0], 7);
    assert_eq!(session, once);
    session.spawn_platform(wide());
    assert_eq!(session, once);
}

#[test]
fn spawn_measures_from_the_anchor_and_the_highest_platform() {
    let platforms = vec![
        Platform { x: units(-200), y: units(40) },
        Platform { x: units(120), y: units(-10) },
    ];
    let mut session = grounded_on(platforms, Some(1));
    session.spawn_platform_with(wide(), &vec![units(350 + 220) as u64, units(350 + 19) as u64], 0);
    assert_eq!(session.platforms[2], Platform { x: units(19), y: units(90) });
}

#[test]
fn spawn_without_platforms_starts_from_zero() {
    let mut session = grounded_on(vec![], None);
    session.spawn_platform_with(wide(), &vec![350_000_000], 100_000_000);
    assert_eq!(session.platforms, vec![Platform { x: units(100) + 1, y: units(150) }]);
}

#[test]
fn spawn_stops_at_the_platform_limit() {
    let platforms = vec![Platform { x: 0, y: PLATFORM_LIMIT - units(60) }];
    let mut session = grounded_on(platforms, Some(0));
    session.spawn_platform_with(wide(), &vec![0], units(20) as u64);
    assert_eq!(session.platforms[1], Platform { x: units(-350), y: PLATFORM_LIMIT });
    session.pending_spawn = true;
    session.spawn_platform_with(wide(), &vec![0], 0);
    assert_eq!(session.platforms[2].y, PLATFORM_LIMIT);
    assert!(session.is_wf());
}

#[test]
fn random_spawn_keeps_clear_of_the_anchor_and_rises() {
    let mut session = Session::setup_game(wide());
    for round in 0..300 {
        let before = session.clone();
        let top = session.highest_y();
        let anchor = session.anchor_x();
        session.pending_spawn = true;
        session.spawn_platform(wide());
        assert_eq!(session.platforms.len(), before.platforms.len() + 1);
        assert_eq!(session.platforms[..before.platforms.len()], before.platforms[..]);
        let made = session.platforms[before.platforms.len()];
        assert!((made.x - anchor).abs() > units(100));
        assert!(units(-350) <= made.x && made.x <= units(350));
        assert!(made.y - top >= units(50) && made.y - top <= units(150));
        assert!(!session.pending_spawn);
        assert_eq!(session.player, before.player);
        session.last_landed = Some(round % session.platforms.len());
        assert!(session.is_wf());
    }
}

#[test]
fn random_spawn_in_a_narrow_viewport_uses_the_fallback() {
    let narrow = Viewport { width: 150, height: 600 };
    let mut session = Session::setup_game(narrow);
    session.spawn_platform(narrow);
    assert_eq!(session.platforms.len(), 2);
    assert_eq!(session.platforms[1].x, units(100) + 1);
    let gained = session.platforms[1].y - session.platforms[0].y;
    assert!(units(50) <= gained && gained <= units(150));
}

#[test]
fn random_spawn_draws_differ() {
    let mut seen = Vec::new();
    for _ in 0..20 {
        let mut session = Session::setup_game(wide());
        session.spawn_platform(wide());
        seen.push(session.platforms[1]);
    }
    assert!(seen.iter().any(|p| *p != seen[0]));
}
