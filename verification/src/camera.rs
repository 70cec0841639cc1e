//! Camera follow: the camera leaves the player alone inside a deadzone and
//! moves by exactly the overflow when the player crosses its edge.

use vstd::prelude::*;
use crate::geometry::{DEADZONE_MARGIN, HALF_UNIT, WORLD_LIMIT, Viewport};
use crate::world::{Camera, Session, SessionView};

verus! {

/// The camera coordinate on one axis after following a player at `player`.
/// `reach` is the greatest camera-relative coordinate inside the deadzone and
/// `-reach` the least. A player beyond an edge pulls the camera by the
/// overflow, which leaves the player on that edge. `high_first` says which
/// edge is looked at first; it matters only for a deadzone with no inside.
pub open spec fn spec_follow_axis(player: int, camera: int, reach: int, high_first: bool) -> int {
    let offset = player - camera;
    if high_first {
        if offset > reach {
            camera + (offset - reach)
        } else if offset < -reach {
            camera + (offset + reach)
        } else {
            camera
        }
    } else {
        if offset < -reach {
            camera + (offset + reach)
        } else if offset > reach {
            camera + (offset - reach)
        } else {
            camera
        }
    }
}

/// Whether a player at `player` is inside the deadzone of a camera at
/// `camera` on one axis.
pub open spec fn in_deadzone(player: int, camera: int, reach: int) -> bool {
    -reach <= player - camera <= reach
}

/// Computes [`spec_follow_axis`] for a player inside the world and the
/// deadzone of a viewport with the given half extent on the axis.
fn follow_axis(player: i64, camera: i64, half_extent: i64, high_first: bool) -> (r: i64)
    requires
        -WORLD_LIMIT <= player <= WORLD_LIMIT,
        0 <= half_extent <= u32::MAX * HALF_UNIT,
    ensures
        r == spec_follow_axis(
            player as int,
            camera as int,
            Viewport::deadzone_reach(half_extent as int),
            high_first,
        ),
{
    let reach: i64 = half_extent - DEADZONE_MARGIN;
    let offset: i128 = player as i128 - camera as i128;
    let above: bool = offset > reach as i128;
    let below: bool = offset < -(reach as i128);
    if above && (high_first || !below) {
        player - reach
    } else if below {
        player + reach
    } else {
        camera
    }
}

impl SessionView {
    /// The session after camera follow. The vertical axis looks at the upper
    /// edge first, the horizontal axis at the left edge first. Without a player
    /// the camera rests.
    pub open spec fn followed(self, viewport: Viewport) -> SessionView {
        match self.player {
            None => self,
            Some(p) => SessionView {
                camera: Camera {
                    x: spec_follow_axis(
                        p.x as int,
                        self.camera.x as int,
                        Viewport::deadzone_reach(viewport.spec_half_width()),
                        false,
                    ) as i64,
                    y: spec_follow_axis(
                        p.y as int,
                        self.camera.y as int,
                        Viewport::deadzone_reach(viewport.spec_half_height()),
                        true,
                    ) as i64,
                },
                ..self
            },
        }
    }
}

impl Session {
    /// Lets the camera follow the player, see [`SessionView::followed`].
    pub fn follow_player(&mut self, viewport: Viewport)
        requires
            old(self).wf(),
        ensures
            final(self)@ == old(self)@.followed(viewport),
            final(self).wf(),
    {
        match self.player {
            None => {},
            Some(p) => {
                let x: i64 = follow_axis(p.x, self.camera.x, viewport.half_width(), false);
                let y: i64 = follow_axis(p.y, self.camera.y, viewport.half_height(), true);
                self.camera = Camera { x, y };
            },
        }
    }
}

} // verus!
