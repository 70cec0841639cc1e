//! The simulation step: launch, integration, landing detection and respawn.

use vstd::prelude::*;
use crate::geometry::{
    GRAVITY, LAUNCH_SCALE, PLATFORM_HEIGHT, PLAYER_HEIGHT, Point, TICKS_PER_SECOND, WORLD_LIMIT,
    Viewport, confine_i64, confine_to, confine_world, div_toward_zero,
};
use crate::input::{InputEvent, Launch, lemma_launch_disarms};
use crate::world::{Camera, Platform, Player, Session, SessionView, highest_y, lemma_highest_y};

verus! {

impl Player {
    /// The player after a launch command. The horizontal velocity covers the
    /// distance to the target in one second, rounded toward zero; the vertical
    /// velocity is the charge times [`LAUNCH_SCALE`]; the player leaves the
    /// ground.
    pub open spec fn spec_launched(self, launch: Launch) -> Player {
        Player {
            x: self.x,
            y: self.y,
            vx: div_toward_zero(launch.target_x - self.x, TICKS_PER_SECOND as int) as i64,
            vy: (launch.charge * LAUNCH_SCALE) as i64,
            on_ground: false,
        }
    }

    /// The vertical velocity after `dt` ticks of gravity.
    pub open spec fn spec_fallen_vy(self, dt: u32) -> int {
        confine_i64(self.vy - GRAVITY * dt)
    }

    /// The player after `dt` ticks of flight: gravity changes the vertical
    /// velocity first, then the position moves by the new velocity. A grounded
    /// player stays as it is.
    pub open spec fn spec_moved(self, dt: u32) -> Player {
        if self.on_ground {
            self
        } else {
            Player {
                x: confine_world(self.x + self.vx * dt) as i64,
                y: confine_world(self.y + self.spec_fallen_vy(dt) * dt) as i64,
                vx: self.vx,
                vy: self.spec_fallen_vy(dt) as i64,
                on_ground: false,
            }
        }
    }

    /// Computes [`Player::spec_launched`].
    pub fn launched(self, launch: Launch) -> (r: Player)
        ensures
            r == self.spec_launched(launch),
            !r.on_ground,
            r.vy == launch.charge * LAUNCH_SCALE,
            r.vx == div_toward_zero(launch.target_x - self.x, TICKS_PER_SECOND as int),
            r.x == self.x,
            r.y == self.y,
    {
        let gap: i128 = launch.target_x as i128 - self.x as i128;
        let vx: i128 = if gap >= 0 {
            gap / (TICKS_PER_SECOND as i128)
        } else {
            -((-gap) / (TICKS_PER_SECOND as i128))
        };
        let vy: i64 = (launch.charge as i64) * LAUNCH_SCALE;
        Player { x: self.x, y: self.y, vx: vx as i64, vy, on_ground: false }
    }

    /// Computes [`Player::spec_moved`].
    pub fn moved(self, dt: u32) -> (r: Player)
        ensures
            r == self.spec_moved(dt),
            self.wf() ==> r.wf(),
    {
        if self.on_ground {
            return self;
        }
        assert(0 <= GRAVITY * dt <= 1_500 * 0x1_0000_0000) by (nonlinear_arith)
            requires
                GRAVITY == 1_500,
                0 <= dt <= 0x1_0000_0000,
        ;
        let vy: i64 = confine_to(
            self.vy as i128 - (GRAVITY as i128) * (dt as i128),
            i64::MIN,
            i64::MAX,
        );
        assert(-0x8000_0000_0000_0000 * 0x1_0000_0000 <= self.vx * dt <= 0x8000_0000_0000_0000
            * 0x1_0000_0000) by (nonlinear_arith)
            requires
                -0x8000_0000_0000_0000 <= self.vx <= 0x8000_0000_0000_0000,
                0 <= dt <= 0x1_0000_0000,
        ;
        assert(-0x8000_0000_0000_0000 * 0x1_0000_0000 <= vy * dt <= 0x8000_0000_0000_0000
            * 0x1_0000_0000) by (nonlinear_arith)
            requires
                -0x8000_0000_0000_0000 <= vy <= 0x8000_0000_0000_0000,
                0 <= dt <= 0x1_0000_0000,
        ;
        let x: i64 = confine_to(
            self.x as i128 + (self.vx as i128) * (dt as i128),
            -WORLD_LIMIT,
            WORLD_LIMIT,
        );
        let y: i64 = confine_to(
            self.y as i128 + (vy as i128) * (dt as i128),
            -WORLD_LIMIT,
            WORLD_LIMIT,
        );
        Player { x, y, vx: self.vx, vy, on_ground: false }
    }
}

impl Platform {
    /// Whether the platform catches a falling player in a step of `dt` ticks.
    /// `p` is the player after integration and `from` its position before.
    /// The player's lower edge sweeps from its height at `from` by `p.vy *
    /// dt`, the vertical motion of the step. The platform catches where the
    /// player at `from` overlaps it horizontally, the lower edge starts at or
    /// above the platform's upper face and the sweep ends at or below it.
    pub open spec fn spec_catches(self, p: Player, from: Point, dt: u32) -> bool {
        let bottom = from.y - PLAYER_HEIGHT / 2;
        let bottom_next = bottom + p.vy * dt;
        &&& self.spec_spans(from.x as int)
        &&& bottom >= self.spec_top()
        &&& bottom_next <= self.spec_top()
    }

    /// Computes [`Platform::spec_catches`].
    pub fn catches(self, p: Player, from: Point, dt: u32) -> (r: bool)
        ensures
            r == self.spec_catches(p, from, dt),
    {
        assert(-0x8000_0000_0000_0000 * 0x1_0000_0000 <= p.vy * dt <= 0x8000_0000_0000_0000
            * 0x1_0000_0000) by (nonlinear_arith)
            requires
                -0x8000_0000_0000_0000 <= p.vy <= 0x8000_0000_0000_0000,
                0 <= dt <= 0x1_0000_0000,
        ;
        let top: i128 = self.y as i128 + (PLATFORM_HEIGHT / 2) as i128;
        let bottom: i128 = from.y as i128 - (PLAYER_HEIGHT / 2) as i128;
        let bottom_next: i128 = bottom + (p.vy as i128) * (dt as i128);
        self.spans(from.x) && bottom >= top && bottom_next <= top
    }
}

/// The index of the first platform from `start` on, in creation order, that
/// catches the player, and the number of platforms where none does.
pub open spec fn first_catch_from(
    platforms: Seq<Platform>,
    p: Player,
    from: Point,
    dt: u32,
    start: int,
) -> int
    decreases platforms.len() - start,
{
    if start < 0 || start >= platforms.len() {
        platforms.len() as int
    } else if platforms[start].spec_catches(p, from, dt) {
        start
    } else {
        first_catch_from(platforms, p, from, dt, start + 1)
    }
}

/// The index of the first platform, in creation order, that catches the
/// player, and the number of platforms where none does.
pub open spec fn first_catch(platforms: Seq<Platform>, p: Player, from: Point, dt: u32) -> int {
    first_catch_from(platforms, p, from, dt, 0)
}

/// `first_catch_from` is the least index from `start` on of a platform that
/// catches the player.
pub proof fn lemma_first_catch_from(
    platforms: Seq<Platform>,
    p: Player,
    from: Point,
    dt: u32,
    start: int,
)
    requires
        0 <= start <= platforms.len(),
    ensures
        start <= first_catch_from(platforms, p, from, dt, start) <= platforms.len(),
        first_catch_from(platforms, p, from, dt, start) < platforms.len()
            ==> platforms[first_catch_from(platforms, p, from, dt, start)].spec_catches(
            p,
            from,
            dt,
        ),
        forall|j: int|
            start <= j < first_catch_from(platforms, p, from, dt, start) ==> !(
            #[trigger] platforms[j]).spec_catches(p, from, dt),
    decreases platforms.len() - start,
{
    if start < platforms.len() && !platforms[start].spec_catches(p, from, dt) {
        lemma_first_catch_from(platforms, p, from, dt, start + 1);
    }
}

impl SessionView {
    /// The session after the input of a frame: the gesture advances and, where
    /// it gives a launch command, the player is launched. Without a player
    /// nothing changes.
    pub open spec fn jumped(
        self,
        dt: u32,
        events: Seq<InputEvent>,
        viewport: Option<Viewport>,
    ) -> SessionView {
        match self.player {
            None => self,
            Some(p) => {
                let outcome = self.aim.spec_frame(p.on_ground, events, dt, viewport);
                SessionView {
                    player: Some(
                        match outcome.1 {
                            Some(launch) => p.spec_launched(launch),
                            None => p,
                        },
                    ),
                    aim: outcome.0,
                    ..self
                }
            },
        }
    }

    /// The session after `dt` ticks of flight, see [`Player::spec_moved`].
    pub open spec fn moved(self, dt: u32) -> SessionView {
        match self.player {
            None => self,
            Some(p) => SessionView { player: Some(p.spec_moved(dt)), ..self },
        }
    }

    /// The session after landing detection. An airborne player lands on the
    /// first platform that catches it: it comes to rest on the platform's upper
    /// face, keeping its x. Where that platform is as high as the highest one,
    /// it becomes the anchor and a new platform is owed.
    pub open spec fn landed(self, from: Point, dt: u32) -> SessionView {
        match (self.player, self.caught_by(from, dt)) {
            (Some(p), Some(i)) => {
                let on_highest = self.platforms[i].y == highest_y(self.platforms);
                SessionView {
                    player: Some(Player::resting(p.x, self.platforms[i].spec_rest_y() as i64)),
                    last_landed: if on_highest {
                        Some(i)
                    } else {
                        self.last_landed
                    },
                    pending_spawn: self.pending_spawn || on_highest,
                    ..self
                }
            },
            _ => self,
        }
    }

    /// The index of the platform that catches the player in this step: the
    /// first one in creation order that catches an airborne player. A grounded
    /// player, or none, is caught by no platform.
    pub open spec fn caught_by(self, from: Point, dt: u32) -> Option<int> {
        match self.player {
            None => None,
            Some(p) => if !p.on_ground && first_catch(self.platforms, p, from, dt)
                < self.platforms.len() {
                Some(first_catch(self.platforms, p, from, dt))
            } else {
                None
            },
        }
    }

    /// Where the player is put after a fall: standing on the middle of the
    /// anchor platform, or at the world origin where no anchor is recorded. An
    /// anchor that refers to no live platform, which the invariant excludes,
    /// leaves the player as it is.
    pub open spec fn recovery(self, p: Player) -> Player {
        match self.last_landed {
            None => Player::resting(0, 0),
            Some(i) => if 0 <= i < self.platforms.len() {
                self.platforms[i].spec_rider()
            } else {
                p
            },
        }
    }

    /// The session after the fall check. A player below the bottom limit of
    /// the viewport is put at its recovery place, and the camera is centred at
    /// x 0 and the height of the highest platform.
    pub open spec fn respawned(self, viewport: Viewport) -> SessionView {
        match self.player {
            None => self,
            Some(p) => if p.y < viewport.spec_bottom_limit() {
                SessionView {
                    player: Some(self.recovery(p)),
                    camera: Camera { x: 0, y: highest_y(self.platforms) as i64 },
                    ..self
                }
            } else {
                self
            },
        }
    }

    /// The position of the player, and the origin where there is none.
    pub open spec fn player_position(self) -> Point {
        match self.player {
            Some(p) => Point { x: p.x, y: p.y },
            None => Point { x: 0, y: 0 },
        }
    }

    /// The session after the simulation step of a frame: input and launch,
    /// integration, landing detection against the position before
    /// integration, and, with a viewport, the fall check.
    pub open spec fn advanced(
        self,
        dt: u32,
        events: Seq<InputEvent>,
        viewport: Option<Viewport>,
    ) -> SessionView {
        let launched = self.jumped(dt, events, viewport);
        let settled = launched.moved(dt).landed(launched.player_position(), dt);
        match viewport {
            Some(v) => settled.respawned(v),
            None => settled,
        }
    }
}

impl Session {
    /// Applies the input of a frame of `dt` ticks, see [`SessionView::jumped`].
    pub fn jump(&mut self, dt: u32, events: &Vec<InputEvent>, viewport: Option<Viewport>)
        requires
            old(self).wf(),
        ensures
            final(self)@ == old(self)@.jumped(dt, events@, viewport),
            final(self).wf(),
    {
        match self.player {
            None => {},
            Some(p) => {
                let outcome = self.aim.frame(p.on_ground, events, dt, viewport);
                proof {
                    lemma_launch_disarms(self.aim, p.on_ground, events@, dt, viewport);
                }
                self.aim = outcome.0;
                match outcome.1 {
                    Some(launch) => {
                        self.player = Some(p.launched(launch));
                    },
                    None => {},
                }
            },
        }
    }

    /// Moves an airborne player by `dt` ticks, see [`SessionView::moved`].
    pub fn update_jump(&mut self, dt: u32)
        requires
            old(self).wf(),
        ensures
            final(self)@ == old(self)@.moved(dt),
            final(self).wf(),
    {
        match self.player {
            None => {},
            Some(p) => {
                self.player = Some(p.moved(dt));
            },
        }
    }

    /// Detects a landing, see [`SessionView::landed`]. `from` is the position
    /// of the player before the integration of this frame. Returns the index
    /// of the platform landed on.
    pub fn landing(&mut self, from: Point, dt: u32) -> (r: Option<usize>)
        requires
            old(self).wf(),
        ensures
            final(self)@ == old(self)@.landed(from, dt),
            final(self).wf(),
            match r {
                Some(i) => old(self)@.caught_by(from, dt) == Some(i as int),
                None => old(self)@.caught_by(from, dt) is None,
            },
    {
        let p = match self.player {
            None => {
                return None;
            },
            Some(p) => p,
        };
        if p.on_ground {
            return None;
        }
        let highest = self.highest_y();
        let mut i: usize = 0;
        while i < self.platforms.len()
            invariant
                i <= self.platforms.len(),
                first_catch(self.platforms@, p, from, dt) == first_catch_from(
                    self.platforms@,
                    p,
                    from,
                    dt,
                    i as int,
                ),
                *self == *old(self),
                self.wf(),
                self.player == Some(p),
                !p.on_ground,
                highest == highest_y(self.platforms@),
            decreases self.platforms.len() - i,
        {
            let q = self.platforms[i];
            if q.catches(p, from, dt) {
                self.player = Some(Player { x: p.x, y: q.rest_y(), vx: 0, vy: 0, on_ground: true });
                if q.y == highest {
                    self.pending_spawn = true;
                    self.last_landed = Some(i);
                }
                return Some(i);
            }
            i += 1;
        }
        None
    }

    /// Recovers a player that fell out of the world, see
    /// [`SessionView::respawned`].
    pub fn respawn(&mut self, viewport: Viewport)
        requires
            old(self).wf(),
        ensures
            final(self)@ == old(self)@.respawned(viewport),
            final(self).wf(),
    {
        let p = match self.player {
            None => {
                return ;
            },
            Some(p) => p,
        };
        if p.y < viewport.bottom_limit() {
            match self.last_landed {
                None => {
                    self.player = Some(Player { x: 0, y: 0, vx: 0, vy: 0, on_ground: true });
                },
                Some(i) => {
                    if i < self.platforms.len() {
                        self.player = Some(self.platforms[i].rider());
                    }
                },
            }
            proof {
                lemma_highest_y(self.platforms@);
            }
            self.camera = Camera { x: 0, y: self.highest_y() };
        }
    }

    /// Runs the simulation step of a frame of `dt` ticks, see
    /// [`SessionView::advanced`].
    pub fn advance(&mut self, dt: u32, events: &Vec<InputEvent>, viewport: Option<Viewport>)
        requires
            old(self).wf(),
        ensures
            final(self)@ == old(self)@.advanced(dt, events@, viewport),
            final(self).wf(),
    {
        self.jump(dt, events, viewport);
        let from = match self.player {
            Some(p) => Point { x: p.x, y: p.y },
            None => Point { x: 0, y: 0 },
        };
        self.update_jump(dt);
        let _ = self.landing(from, dt);
        match viewport {
            Some(v) => {
                self.respawn(v);
            },
            None => {},
        }
    }
}

} // verus!
