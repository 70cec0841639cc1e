//! What holds of every session: the invariant is kept by every step, and the
//! laws of rest, launch, recovery, generation and camera follow.

use vstd::prelude::*;
use crate::camera::in_deadzone;
use crate::generator::{lemma_pick_x, spec_clear_of};
use crate::geometry::{
    LAUNCH_SCALE, PLATFORM_HEIGHT, PLATFORM_LIMIT, PLAYER_HEIGHT, Point, SPAWN_MAX_RISE,
    SPAWN_MIN_RISE, TICKS_PER_SECOND, Viewport, div_toward_zero,
};
use crate::input::{EventKind, InputEvent, lemma_events_without_release, lemma_launch_disarms};
use crate::simulation::{first_catch, lemma_first_catch_from};
use crate::world::{Player, SessionView, highest_y, lemma_highest_y};

verus! {

/// What a frame is run on: its length in ticks, its input events, the
/// viewport if there is one, and the draws of the platform generator.
pub struct FrameInput {
    pub dt: u32,
    pub events: Seq<InputEvent>,
    pub viewport: Option<Viewport>,
    pub draws: Seq<u64>,
    pub rise_draw: u64,
}

impl SessionView {
    /// The session after one frame.
    pub open spec fn after(self, frame: FrameInput) -> SessionView {
        self.ticked(frame.dt, frame.events, frame.viewport, frame.draws, frame.rise_draw)
    }

    /// The session after a sequence of frames.
    pub open spec fn run(self, frames: Seq<FrameInput>) -> SessionView
        decreases frames.len(),
    {
        if frames.len() == 0 {
            self
        } else {
            self.run(frames.drop_last()).after(frames.last())
        }
    }

    /// Whether the input of the frame launches the player.
    pub open spec fn launches(self, frame: FrameInput) -> bool {
        self.player matches Some(p) && self.aim.spec_frame(
            p.on_ground,
            frame.events,
            frame.dt,
            frame.viewport,
        ).1 is Some
    }

    /// Whether the player is below the bottom limit of the frame's viewport.
    pub open spec fn fallen(self, frame: FrameInput) -> bool {
        self.player matches Some(p) && frame.viewport matches Some(v) && p.y
            < v.spec_bottom_limit()
    }
}

/// The input step keeps the invariant.
pub proof fn lemma_jumped_wf(
    s: SessionView,
    dt: u32,
    events: Seq<InputEvent>,
    viewport: Option<Viewport>,
)
    requires
        s.wf(),
    ensures
        s.jumped(dt, events, viewport).wf(),
        s.jumped(dt, events, viewport).platforms == s.platforms,
        s.jumped(dt, events, viewport).last_landed == s.last_landed,
{
    if let Some(p) = s.player {
        lemma_launch_disarms(s.aim, p.on_ground, events, dt, viewport);
    }
}

/// Landing detection keeps the invariant.
pub proof fn lemma_landed_wf(s: SessionView, from: Point, dt: u32)
    requires
        s.wf(),
    ensures
        s.landed(from, dt).wf(),
        s.landed(from, dt).platforms == s.platforms,
{
    if let Some(p) = s.player {
        lemma_first_catch_from(s.platforms, p, from, dt, 0);
    }
}

/// The fall check keeps the invariant.
pub proof fn lemma_respawned_wf(s: SessionView, viewport: Viewport)
    requires
        s.wf(),
    ensures
        s.respawned(viewport).wf(),
        s.respawned(viewport).platforms == s.platforms,
{
    lemma_highest_y(s.platforms);
}

/// The simulation step keeps the invariant, and the platforms with it.
pub proof fn lemma_advanced_wf(
    s: SessionView,
    dt: u32,
    events: Seq<InputEvent>,
    viewport: Option<Viewport>,
)
    requires
        s.wf(),
    ensures
        s.advanced(dt, events, viewport).wf(),
        s.advanced(dt, events, viewport).platforms == s.platforms,
{
    lemma_jumped_wf(s, dt, events, viewport);
    let launched = s.jumped(dt, events, viewport);
    let moved = launched.moved(dt);
    lemma_landed_wf(moved, launched.player_position(), dt);
    if let Some(v) = viewport {
        lemma_respawned_wf(moved.landed(launched.player_position(), dt), v);
    }
}

/// The generated platform lies inside the platform limit, keeps more than a
/// platform width of distance from the anchor's x, and, where the platform
/// limit leaves room above the highest platform, lies above it by at least
/// [`SPAWN_MIN_RISE`] and at most [`SPAWN_MAX_RISE`]. This holds whatever is
/// drawn.
pub proof fn lemma_generated_platform(
    s: SessionView,
    viewport: Viewport,
    draws: Seq<u64>,
    rise_draw: u64,
)
    requires
        s.wf(),
    ensures
        s.generated(viewport, draws, rise_draw).wf(),
        spec_clear_of(s.generated(viewport, draws, rise_draw).x as int, s.anchor_x()),
        highest_y(s.platforms) + SPAWN_MAX_RISE <= PLATFORM_LIMIT ==> SPAWN_MIN_RISE
            <= s.generated(viewport, draws, rise_draw).y - highest_y(s.platforms)
            <= SPAWN_MAX_RISE,
        (exists|x: int|
            viewport.spec_spawn_min_x() <= x <= viewport.spec_spawn_max_x() && #[trigger] spec_clear_of(
                x,
                s.anchor_x(),
            )) ==> viewport.spec_spawn_min_x() <= s.generated(viewport, draws, rise_draw).x
            <= viewport.spec_spawn_max_x(),
{
    lemma_highest_y(s.platforms);
    lemma_pick_x(viewport, draws, s.anchor_x());
}

/// Where the platform limit leaves room above the highest platform, the
/// generated platform is higher than every platform before it, and is the
/// highest platform once it is added.
pub proof fn lemma_generated_is_highest(
    s: SessionView,
    viewport: Viewport,
    draws: Seq<u64>,
    rise_draw: u64,
)
    requires
        s.wf(),
        highest_y(s.platforms) + SPAWN_MAX_RISE <= PLATFORM_LIMIT,
    ensures
        forall|i: int|
            0 <= i < s.platforms.len() ==> (#[trigger] s.platforms[i]).y < s.generated(
                viewport,
                draws,
                rise_draw,
            ).y,
        highest_y(s.platforms.push(s.generated(viewport, draws, rise_draw))) == s.generated(
            viewport,
            draws,
            rise_draw,
        ).y,
{
    lemma_generated_platform(s, viewport, draws, rise_draw);
    lemma_highest_y(s.platforms);
    let made = s.generated(viewport, draws, rise_draw);
    let grown = s.platforms.push(made);
    assert(grown.drop_last() =~= s.platforms);
}

/// A frame whose events hold no release launches nothing.
pub proof fn lemma_no_release_no_launch(s: SessionView, frame: FrameInput)
    requires
        forall|i: int|
            0 <= i < frame.events.len() ==> (#[trigger] frame.events[i]).kind
                != EventKind::Release,
    ensures
        !s.launches(frame),
{
    lemma_events_without_release(s.aim, frame.events, frame.viewport);
}

/// The generator keeps the invariant and the platforms that exist. It adds
/// exactly one platform where one is owed and none otherwise, and leaves no
/// debt: a second run in the same frame adds nothing.
pub proof fn lemma_spawned(s: SessionView, viewport: Viewport, draws: Seq<u64>, rise_draw: u64)
    requires
        s.wf(),
    ensures
        s.spawned(viewport, draws, rise_draw).wf(),
        !s.spawned(viewport, draws, rise_draw).pending_spawn,
        s.spawned(viewport, draws, rise_draw).platforms.len() == s.platforms.len() + if s.pending_spawn {
            1int
        } else {
            0int
        },
        forall|i: int|
            0 <= i < s.platforms.len() ==> s.spawned(viewport, draws, rise_draw).platforms[i]
                == s.platforms[i],
        forall|more: Seq<u64>, rise: u64|
            s.spawned(viewport, draws, rise_draw).spawned(viewport, more, rise) == s.spawned(
                viewport,
                draws,
                rise_draw,
            ),
        s.spawned(viewport, draws, rise_draw).player == s.player,
{
    lemma_generated_platform(s, viewport, draws, rise_draw);
}

/// A frame keeps the invariant and every platform that exists.
pub proof fn lemma_after_wf(s: SessionView, frame: FrameInput)
    requires
        s.wf(),
    ensures
        s.after(frame).wf(),
        s.platforms.len() <= s.after(frame).platforms.len() <= s.platforms.len() + 1,
        forall|i: int| 0 <= i < s.platforms.len() ==> s.after(frame).platforms[i] == s.platforms[i],
{
    lemma_advanced_wf(s, frame.dt, frame.events, frame.viewport);
    if let Some(v) = frame.viewport {
        lemma_spawned(
            s.advanced(frame.dt, frame.events, frame.viewport),
            v,
            frame.draws,
            frame.rise_draw,
        );
    }
}

/// Every sequence of frames keeps the invariant and every platform that
/// exists: platforms are never moved or removed during a session, and the
/// anchor always refers to a live platform.
pub proof fn lemma_run_wf(s: SessionView, frames: Seq<FrameInput>)
    requires
        s.wf(),
    ensures
        s.run(frames).wf(),
        s.run(frames).platforms.len() >= s.platforms.len(),
        forall|i: int| 0 <= i < s.platforms.len() ==> s.run(frames).platforms[i] == s.platforms[i],
    decreases frames.len(),
{
    if frames.len() > 0 {
        lemma_run_wf(s, frames.drop_last());
        lemma_after_wf(s.run(frames.drop_last()), frames.last());
    }
}

/// A grounded player that is not launched in a frame, and is not below the
/// bottom limit of the frame's viewport, has the same position after the
/// frame, and its velocity stays zero.
pub proof fn lemma_grounded_player_rests(s: SessionView, frame: FrameInput)
    requires
        s.wf(),
        s.player matches Some(p) && p.on_ground,
        !s.launches(frame),
        !s.fallen(frame),
    ensures
        s.after(frame).player == s.player,
        s.player->0.vx == 0 && s.player->0.vy == 0,
{
}

/// A launch always leaves the ground: the player keeps its place, its vertical
/// velocity is the charge times [`LAUNCH_SCALE`], for every charge, and its
/// horizontal velocity covers the distance to the target in one second.
pub proof fn lemma_launch(s: SessionView, frame: FrameInput)
    requires
        s.wf(),
        s.launches(frame),
    ensures
        ({
            let p = s.player->0;
            let launch = s.aim.spec_frame(true, frame.events, frame.dt, frame.viewport).1->0;
            let q = s.jumped(frame.dt, frame.events, frame.viewport).player->0;
            &&& s.player is Some
            &&& p.on_ground
            &&& s.aim.spec_frame(true, frame.events, frame.dt, frame.viewport).1 is Some
            &&& s.jumped(frame.dt, frame.events, frame.viewport).player is Some
            &&& !q.on_ground
            &&& q.x == p.x
            &&& q.y == p.y
            &&& q.vy == launch.charge * LAUNCH_SCALE
            &&& q.vx == div_toward_zero(launch.target_x - p.x, TICKS_PER_SECOND as int)
        }),
{
    let p = s.player->0;
    lemma_launch_disarms(s.aim, p.on_ground, frame.events, frame.dt, frame.viewport);
    let launch = s.aim.spec_frame(true, frame.events, frame.dt, frame.viewport).1->0;
    assert(0 <= launch.charge * LAUNCH_SCALE <= 0x1_0000_0000 * 2_000) by (nonlinear_arith)
        requires
            0 <= launch.charge <= 0x1_0000_0000,
            LAUNCH_SCALE == 2_000,
    ;
}

/// A landing puts the player at rest on the upper face of the platform that
/// caught it, with its x unchanged.
pub proof fn lemma_landing_rests(s: SessionView, from: Point, dt: u32)
    requires
        s.wf(),
        s.player matches Some(p) && !p.on_ground,
        first_catch(s.platforms, s.player->0, from, dt) < s.platforms.len(),
    ensures
        ({
            let i = first_catch(s.platforms, s.player->0, from, dt);
            &&& 0 <= i < s.platforms.len()
            &&& s.platforms[i].spec_catches(s.player->0, from, dt)
            &&& forall|j: int| 0 <= j < i ==> !(#[trigger] s.platforms[j]).spec_catches(s.player->0, from, dt)
            &&& s.landed(from, dt).player == Some(
                Player {
                    x: s.player->0.x,
                    y: (s.platforms[i].y + PLATFORM_HEIGHT / 2 + PLAYER_HEIGHT / 2) as i64,
                    vx: 0,
                    vy: 0,
                    on_ground: true,
                },
            )
            &&& s.landed(from, dt).player->0.y - PLAYER_HEIGHT / 2 == s.platforms[i].y
                + PLATFORM_HEIGHT / 2
        }),
{
    lemma_first_catch_from(s.platforms, s.player->0, from, dt, 0);
}

/// A falling player does not pass through a platform. If, before a step, its
/// lower edge is at or above the platform's upper face and it overlaps the
/// platform horizontally, and the step takes its lower edge to or below that
/// face, however fast it falls, then it lands in this step: on this platform,
/// or on one created before it that catches it too.
pub proof fn lemma_no_tunnelling(s: SessionView, dt: u32, j: int)
    requires
        s.wf(),
        s.player matches Some(p) && !p.on_ground,
        0 <= j < s.platforms.len(),
        s.platforms[j].spec_spans(s.player->0.x as int),
        s.player->0.y - PLAYER_HEIGHT / 2 >= s.platforms[j].spec_top(),
        s.player->0.y - PLAYER_HEIGHT / 2 + s.player->0.spec_fallen_vy(dt) * dt
            <= s.platforms[j].spec_top(),
    ensures
        s.moved(dt).caught_by(s.player_position(), dt) matches Some(i) && 0 <= i <= j,
        s.moved(dt).landed(s.player_position(), dt).player matches Some(q) && q.on_ground,
{
    let after = s.moved(dt);
    let from = s.player_position();
    assert(after.platforms[j].spec_catches(after.player->0, from, dt));
    lemma_first_catch_from(after.platforms, after.player->0, from, dt, 0);
}

/// Once the player is grounded, it stays motionless at the same place through
/// any number of frames in which it is not launched and is not below the
/// bottom limit of the viewport. The platforms stay where they are, so the
/// player keeps its offset to each of them.
pub proof fn lemma_rest_persists(s: SessionView, frames: Seq<FrameInput>)
    requires
        s.wf(),
        s.player matches Some(p) && p.on_ground,
        forall|i: int|
            0 <= i < frames.len() ==> !(#[trigger] s.run(frames.take(i))).launches(frames[i]),
        forall|i: int| 0 <= i < frames.len() ==> !s.fallen(#[trigger] frames[i]),
    ensures
        s.run(frames).player == s.player,
        forall|i: int| 0 <= i < s.platforms.len() ==> s.run(frames).platforms[i] == s.platforms[i],
    decreases frames.len(),
{
    lemma_run_wf(s, frames);
    if frames.len() > 0 {
        let front = frames.drop_last();
        assert forall|i: int| 0 <= i < front.len() implies !(#[trigger] s.run(
            front.take(i),
        )).launches(front[i]) by {
            assert(front.take(i) =~= frames.take(i));
        }
        assert forall|i: int| 0 <= i < front.len() implies !s.fallen(#[trigger] front[i]) by {
            assert(front[i] == frames[i]);
        }
        lemma_rest_persists(s, front);
        lemma_run_wf(s, front);
        assert(frames.take(frames.len() - 1) =~= front);
        lemma_grounded_player_rests(s.run(front), frames.last());
    }
}

/// A player below the bottom limit of the viewport is put to rest exactly on
/// top of the anchor platform, at the anchor's x, or at the world origin where
/// no anchor is recorded; its velocity is zero and it is grounded. The camera
/// is centred at x 0 and the height of the highest platform.
pub proof fn lemma_respawn(s: SessionView, viewport: Viewport)
    requires
        s.wf(),
        s.player matches Some(p) && p.y < viewport.spec_bottom_limit(),
    ensures
        s.respawned(viewport).player == Some(
            match s.last_landed {
                Some(i) => Player {
                    x: s.platforms[i].x,
                    y: (s.platforms[i].y + PLATFORM_HEIGHT / 2 + PLAYER_HEIGHT / 2) as i64,
                    vx: 0,
                    vy: 0,
                    on_ground: true,
                },
                None => Player { x: 0, y: 0, vx: 0, vy: 0, on_ground: true },
            },
        ),
        s.last_landed matches Some(i) ==> s.respawned(viewport).player->0.y - PLAYER_HEIGHT / 2
            == s.platforms[i].y + PLATFORM_HEIGHT / 2,
        s.respawned(viewport).camera.x == 0,
        s.respawned(viewport).camera.y == highest_y(s.platforms),
{
    lemma_highest_y(s.platforms);
}

/// After camera follow the player is inside the deadzone on both axes, so the
/// next follow does not move the camera unless the player moved. This holds
/// for every viewport whose deadzone has an inside, that is one of at least
/// twice the deadzone margin in width and in height.
pub proof fn lemma_camera_keeps_player_in_deadzone(s: SessionView, viewport: Viewport)
    requires
        s.wf(),
        s.player is Some,
        Viewport::deadzone_reach(viewport.spec_half_width()) >= 0,
        Viewport::deadzone_reach(viewport.spec_half_height()) >= 0,
    ensures
        in_deadzone(
            s.player->0.x as int,
            s.followed(viewport).camera.x as int,
            Viewport::deadzone_reach(viewport.spec_half_width()),
        ),
        in_deadzone(
            s.player->0.y as int,
            s.followed(viewport).camera.y as int,
            Viewport::deadzone_reach(viewport.spec_half_height()),
        ),
        s.followed(viewport).followed(viewport) == s.followed(viewport),
        s.followed(viewport).player == s.player,
{
}

} // verus!
