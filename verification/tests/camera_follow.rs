use jumper404::geometry::{units, Viewport};
use jumper404::world::{Camera, Player, Session};

fn watching(x: i64, y: i64, camera: Camera) -> Session {
    let mut session = Session::new();
    session.player = Some(Player { x, y, vx: 0, vy: 0, on_ground: true });
    session.camera = camera;
    session
}

fn screen() -> Viewport {
    Viewport { width: 800, height: 600 }
}

#[test]
fn camera_rests_while_the_player_is_inside_the_deadzone() {
    let camera = Camera { x: units(10), y: units(-20) };
    for (x, y) in [(10, -20), (360, 230), (-340, -270), (360, -270), (0, 0)] {
        let mut session = watching(units(x), units(y), camera);
        session.follow_player(screen());
        assert_eq!(session.camera, camera);
    }
}

#[test]
fn camera_moves_by_the_overflow_above() {
    let mut session = watching(0, units(300), Camera { x: 0, y: 0 });
    session.follow_player(screen());
    assert_eq!(session.camera, Camera { x: 0, y: units(50) });
}

#[test]
fn camera_moves_by_the_overflow_on_both_axes() {
    let mut session = watching(units(-400), units(-260), Camera { x: 0, y: 0 });
    session.follow_player(screen());
    assert_eq!(session.camera, Camera { x: units(-50), y: units(-10) });
    let mut session = watching(units(351), units(250) + 1, Camera { x: 0, y: 0 });
    session.follow_player(screen());
    assert_eq!(session.camera, Camera { x: units(1), y: 1 });
}

#[test]
fn camera_leaves_the_player_on_the_deadzone_edge() {
    let mut session = watching(units(1234), units(-5678), Camera { x: units(3), y: units(9) });
    session.follow_player(screen());
    let player = session.player.unwrap();
    assert_eq!(player.x - session.camera.x, units(350));
    assert_eq!(player.y - session.camera.y, units(-250));
    let settled = session.clone();
    session.follow_player(screen());
    assert_eq!(session, settled);
}

#[test]
fn camera_without_a_player_rests() {
    let mut session = Session::new();
    session.camera = Camera { x: 4, y: 5 };
    session.follow_player(screen());
    assert_eq!(session.camera, Camera { x: 4, y: 5 });
}

#[test]
fn camera_far_from_the_player_is_pulled_to_it() {
    let mut session = watching(0, 0, Camera { x: i64::MAX, y: i64::MAX });
    session.follow_player(screen());
    assert_eq!(session.camera, Camera { x: units(350), y: units(250) });
    let mut session = watching(0, 0, Camera { x: i64::MIN, y: i64::MIN });
    session.follow_player(screen());
    assert_eq!(session.camera, Camera { x: units(-350), y: units(-250) });
}

#[test]
fn camera_in_a_viewport_smaller_than_the_margins() {
    let mut session = watching(0, 0, Camera { x: 0, y: 0 });
    session.follow_player(Viewport { width: 60, height: 60 });
    assert_eq!(session.camera, Camera { x: units(-20), y: units(20) });
    session.follow_player(Viewport { width: 60, height: 60 });
    assert_eq!(session.camera, Camera { x: units(20), y: units(-20) });
}
