//! The state of one game session: the player, the platforms in the order they
//! were created, the respawn anchor and the flags the frame steps exchange.

use vstd::prelude::*;
use crate::geometry::{
    PLATFORM_HEIGHT, PLATFORM_LIMIT, PLATFORM_WIDTH, PLAYER_HEIGHT, PLAYER_WIDTH, WORLD_LIMIT,
    Viewport,
};
use crate::input::Aim;

verus! {

/// The player: the centre of its box in sub-units, its velocity in sub-units
/// per tick, and the ground flag.
#[derive(Clone, Copy, Debug, PartialEq, Eq, Structural)]
pub struct Player {
    pub x: i64,
    pub y: i64,
    pub vx: i64,
    pub vy: i64,
    pub on_ground: bool,
}

impl Player {
    /// The position lies inside the world and a grounded player does not move.
    pub open spec fn wf(self) -> bool {
        &&& -WORLD_LIMIT <= self.x <= WORLD_LIMIT
        &&& -WORLD_LIMIT <= self.y <= WORLD_LIMIT
        &&& self.on_ground ==> self.vx == 0 && self.vy == 0
    }

    /// A motionless, grounded player at `(x, y)`.
    pub open spec fn resting(x: i64, y: i64) -> Player {
        Player { x, y, vx: 0, vy: 0, on_ground: true }
    }

    /// Computes [`Player::wf`].
    pub fn is_wf(self) -> (r: bool)
        ensures
            r == self.wf(),
    {
        -WORLD_LIMIT <= self.x && self.x <= WORLD_LIMIT && -WORLD_LIMIT <= self.y && self.y
            <= WORLD_LIMIT && (!self.on_ground || (self.vx == 0 && self.vy == 0))
    }
}

/// A platform, given by the centre of its box. Its identity is its index in
/// [`Session::platforms`].
#[derive(Clone, Copy, Debug, PartialEq, Eq, Structural)]
pub struct Platform {
    pub x: i64,
    pub y: i64,
}

impl Platform {
    /// Both coordinates lie inside the platform limit.
    pub open spec fn wf(self) -> bool {
        &&& -PLATFORM_LIMIT <= self.x <= PLATFORM_LIMIT
        &&& -PLATFORM_LIMIT <= self.y <= PLATFORM_LIMIT
    }

    /// The height of the platform's upper face.
    pub open spec fn spec_top(self) -> int {
        self.y + PLATFORM_HEIGHT / 2
    }

    /// The height of the centre of a player standing on the platform.
    pub open spec fn spec_rest_y(self) -> int {
        self.spec_top() + PLAYER_HEIGHT / 2
    }

    /// The player standing motionless on the middle of the platform.
    pub open spec fn spec_rider(self) -> Player {
        Player::resting(self.x, self.spec_rest_y() as i64)
    }

    /// Whether a player centred at `x` overlaps the platform horizontally.
    pub open spec fn spec_spans(self, x: int) -> bool {
        crate::geometry::distance(x, self.x as int) < (PLATFORM_WIDTH + PLAYER_WIDTH) / 2
    }

    /// Computes [`Platform::wf`].
    pub fn is_wf(self) -> (r: bool)
        ensures
            r == self.wf(),
    {
        -PLATFORM_LIMIT <= self.x && self.x <= PLATFORM_LIMIT && -PLATFORM_LIMIT <= self.y
            && self.y <= PLATFORM_LIMIT
    }

    /// Computes [`Platform::spec_top`].
    pub fn top(self) -> (r: i64)
        requires
            self.wf(),
        ensures
            r == self.spec_top(),
    {
        self.y + PLATFORM_HEIGHT / 2
    }

    /// Computes [`Platform::spec_rest_y`].
    pub fn rest_y(self) -> (r: i64)
        requires
            self.wf(),
        ensures
            r == self.spec_rest_y(),
            -WORLD_LIMIT <= r <= WORLD_LIMIT,
    {
        self.y + PLATFORM_HEIGHT / 2 + PLAYER_HEIGHT / 2
    }

    /// Computes [`Platform::spec_rider`].
    pub fn rider(self) -> (r: Player)
        requires
            self.wf(),
        ensures
            r == self.spec_rider(),
            r.wf(),
    {
        Player { x: self.x, y: self.rest_y(), vx: 0, vy: 0, on_ground: true }
    }

    /// Computes [`Platform::spec_spans`].
    pub fn spans(self, x: i64) -> (r: bool)
        ensures
            r == self.spec_spans(x as int),
    {
        let gap: i128 = if x >= self.x {
            x as i128 - self.x as i128
        } else {
            self.x as i128 - x as i128
        };
        gap < ((PLATFORM_WIDTH + PLAYER_WIDTH) / 2) as i128
    }
}

/// The camera position.
#[derive(Clone, Copy, Debug, PartialEq, Eq, Structural)]
pub struct Camera {
    pub x: i64,
    pub y: i64,
}

/// One game session.
#[derive(Clone, Debug, PartialEq, Eq)]
pub struct Session {
    /// The player, absent outside an active session.
    pub player: Option<Player>,
    /// The live platforms in creation order.
    pub platforms: Vec<Platform>,
    /// The respawn anchor: the platform last landed on while it was the highest.
    pub last_landed: Option<usize>,
    /// Whether a new platform is owed.
    pub pending_spawn: bool,
    /// The state of the launch gesture.
    pub aim: Aim,
    pub camera: Camera,
    /// The height at which the player started the session.
    pub origin_y: i64,
}

/// The mathematical content of a [`Session`].
pub struct SessionView {
    pub player: Option<Player>,
    pub platforms: Seq<Platform>,
    pub last_landed: Option<int>,
    pub pending_spawn: bool,
    pub aim: Aim,
    pub camera: Camera,
    pub origin_y: i64,
}

impl View for Session {
    type V = SessionView;

    open spec fn view(&self) -> SessionView {
        SessionView {
            player: self.player,
            platforms: self.platforms@,
            last_landed: match self.last_landed {
                Some(i) => Some(i as int),
                None => None,
            },
            pending_spawn: self.pending_spawn,
            aim: self.aim,
            camera: self.camera,
            origin_y: self.origin_y,
        }
    }
}

/// The greatest height among a non-empty sequence of platforms.
pub open spec fn max_y(platforms: Seq<Platform>) -> int
    decreases platforms.len(),
{
    if platforms.len() <= 1 {
        platforms[0].y as int
    } else {
        vstd::math::max(max_y(platforms.drop_last()), platforms.last().y as int)
    }
}

/// The height of the highest platform, and 0 where there is none.
pub open spec fn highest_y(platforms: Seq<Platform>) -> int {
    if platforms.len() == 0 {
        0
    } else {
        max_y(platforms)
    }
}

/// `highest_y` is an upper bound of the platform heights and, where there is a
/// platform, the height of one of them.
pub proof fn lemma_highest_y(platforms: Seq<Platform>)
    ensures
        forall|i: int| 0 <= i < platforms.len() ==> (#[trigger] platforms[i]).y <= highest_y(platforms),
        platforms.len() > 0 ==> exists|i: int|
            0 <= i < platforms.len() && (#[trigger] platforms[i]).y == highest_y(platforms),
        platforms.len() == 0 ==> highest_y(platforms) == 0,
    decreases platforms.len(),
{
    if platforms.len() > 1 {
        let front = platforms.drop_last();
        lemma_highest_y(front);
        let k = choose|i: int| 0 <= i < front.len() && (#[trigger] front[i]).y == highest_y(front);
        assert(front[k] == platforms[k]);
        assert forall|i: int| 0 <= i < platforms.len() implies (#[trigger] platforms[i]).y
            <= highest_y(platforms) by {
            if i < front.len() {
                assert(front[i] == platforms[i]);
            }
        }
    }
}

impl SessionView {
    /// The state in which a session starts: one platform near the bottom of
    /// the viewport, the player standing on it, and a platform owed.
    pub open spec fn started(viewport: Viewport) -> SessionView {
        let first = Platform { x: 0, y: viewport.spec_first_platform_y() as i64 };
        SessionView {
            player: Some(first.spec_rider()),
            platforms: seq![first],
            last_landed: Some(0),
            pending_spawn: true,
            aim: Aim::Idle,
            camera: Camera { x: 0, y: 0 },
            origin_y: first.spec_rest_y() as i64,
        }
    }

    /// The state outside a session: no player, no platforms, every flag at
    /// its default.
    pub open spec fn vacant(camera: Camera) -> SessionView {
        SessionView {
            player: None,
            platforms: Seq::empty(),
            last_landed: None,
            pending_spawn: false,
            aim: Aim::Idle,
            camera,
            origin_y: 0,
        }
    }

    /// The invariant of a session. The anchor refers to a live platform, the
    /// launch gesture is armed only while the player stands on the ground, and
    /// every coordinate lies inside its limit.
    pub open spec fn wf(self) -> bool {
        &&& self.player matches Some(p) ==> p.wf()
        &&& forall|i: int| 0 <= i < self.platforms.len() ==> (#[trigger] self.platforms[i]).wf()
        &&& self.last_landed matches Some(i) ==> 0 <= i < self.platforms.len()
        &&& self.aim is Charging ==> (self.player matches Some(p) && p.on_ground)
    }

    /// The x of the anchor platform, and 0 where no anchor is recorded.
    pub open spec fn anchor_x(self) -> int {
        match self.last_landed {
            Some(i) if 0 <= i < self.platforms.len() => self.platforms[i].x as int,
            _ => 0,
        }
    }
}

impl Session {
    /// The invariant of a session, see [`SessionView::wf`].
    pub open spec fn wf(&self) -> bool {
        self@.wf()
    }

    /// A value outside any session: no player and no platforms.
    pub fn new() -> (s: Session)
        ensures
            s@ == SessionView::vacant(Camera { x: 0, y: 0 }),
            s.wf(),
    {
        Session {
            player: None,
            platforms: Vec::new(),
            last_landed: None,
            pending_spawn: false,
            aim: Aim::Idle,
            camera: Camera { x: 0, y: 0 },
            origin_y: 0,
        }
    }

    /// Starts a session in a viewport of the given size.
    pub fn setup_game(viewport: Viewport) -> (s: Session)
        ensures
            s@ == SessionView::started(viewport),
            s.wf(),
    {
        let first = Platform { x: 0, y: viewport.first_platform_y() };
        let rider = first.rider();
        let mut platforms: Vec<Platform> = Vec::new();
        platforms.push(first);
        assert(platforms@ =~= seq![first]);
        Session {
            player: Some(rider),
            platforms,
            last_landed: Some(0),
            pending_spawn: true,
            aim: Aim::Idle,
            camera: Camera { x: 0, y: 0 },
            origin_y: rider.y,
        }
    }

    /// Ends the session: the player and all platforms are removed and the
    /// flags return to their defaults. The camera stays where it is.
    pub fn cleanup(&mut self)
        ensures
            final(self)@ == SessionView::vacant(old(self).camera),
            final(self).wf(),
    {
        self.player = None;
        self.platforms.clear();
        self.last_landed = None;
        self.pending_spawn = false;
        self.aim = Aim::Idle;
        self.origin_y = 0;
    }

    /// Computes the invariant, for callers that filled the fields themselves.
    pub fn is_wf(&self) -> (r: bool)
        ensures
            r == self.wf(),
    {
        let player_ok = match self.player {
            Some(p) => p.is_wf(),
            None => true,
        };
        let anchor_ok = match self.last_landed {
            Some(i) => i < self.platforms.len(),
            None => true,
        };
        let aim_ok = match self.aim {
            Aim::Charging(_) => match self.player {
                Some(p) => p.on_ground,
                None => false,
            },
            Aim::Idle => true,
        };
        if !(player_ok && anchor_ok && aim_ok) {
            return false;
        }
        let mut i: usize = 0;
        while i < self.platforms.len()
            invariant
                i <= self.platforms.len(),
                forall|j: int| 0 <= j < i ==> (#[trigger] self.platforms@[j]).wf(),
            decreases self.platforms.len() - i,
        {
            if !self.platforms[i].is_wf() {
                assert(!self@.platforms[i as int].wf());
                return false;
            }
            i += 1;
        }
        true
    }

    /// The height of the highest platform, and 0 where there is none.
    pub fn highest_y(&self) -> (r: i64)
        ensures
            r == highest_y(self@.platforms),
    {
        if self.platforms.len() == 0 {
            return 0;
        }
        let mut best: i64 = self.platforms[0].y;
        let mut i: usize = 1;
        while i < self.platforms.len()
            invariant
                1 <= i <= self.platforms.len(),
                best == max_y(self.platforms@.take(i as int)),
            decreases self.platforms.len() - i,
        {
            assert(self.platforms@.take(i + 1).drop_last() =~= self.platforms@.take(i as int));
            if self.platforms[i].y > best {
                best = self.platforms[i].y;
            }
            i += 1;
        }
        assert(self.platforms@.take(i as int) =~= self.platforms@);
        best
    }

    /// The x of the anchor platform, and 0 where no anchor is recorded.
    pub fn anchor_x(&self) -> (r: i64)
        ensures
            r == self@.anchor_x(),
            self.wf() ==> -PLATFORM_LIMIT <= r <= PLATFORM_LIMIT,
    {
        match self.last_landed {
            Some(i) => {
                if i < self.platforms.len() {
                    self.platforms[i].x
                } else {
                    0
                }
            },
            None => 0,
        }
    }
}

} // verus!
