//! One frame: the steps of a session in their fixed order, and what the
//! presentation layer is handed afterwards.

use vstd::prelude::*;
use crate::geometry::{
    MAX_SPAWN_ATTEMPTS, PLATFORM_HEIGHT, PLATFORM_WIDTH, PLAYER_HEIGHT, PLAYER_WIDTH, Point,
    Viewport,
};
use crate::input::InputEvent;
use crate::readout::decimal;
use crate::world::{Session, SessionView};

verus! {

/// The size of a box.
#[derive(Clone, Copy, Debug, PartialEq, Eq, Structural)]
pub struct BoxSize {
    pub width: i64,
    pub height: i64,
}

/// The box of one platform as it is drawn. `id` is the platform's index in
/// creation order and stays the same for the whole session.
#[derive(Clone, Copy, Debug, PartialEq, Eq, Structural)]
pub struct PlatformBox {
    pub id: usize,
    pub position: Point,
    pub size: BoxSize,
}

/// What the presentation layer draws after a frame.
#[derive(Clone, Debug, PartialEq, Eq)]
pub struct RenderState {
    /// The centre of the player box, absent outside a session.
    pub player_position: Option<Point>,
    pub player_box_size: BoxSize,
    pub platforms: Vec<PlatformBox>,
    pub camera_position: Point,
    pub height_text: String,
}

/// The mathematical content of a [`RenderState`].
pub struct RenderStateView {
    pub player_position: Option<Point>,
    pub player_box_size: BoxSize,
    pub platforms: Seq<PlatformBox>,
    pub camera_position: Point,
    pub height_text: Seq<char>,
}

impl View for RenderState {
    type V = RenderStateView;

    open spec fn view(&self) -> RenderStateView {
        RenderStateView {
            player_position: self.player_position,
            player_box_size: self.player_box_size,
            platforms: self.platforms@,
            camera_position: self.camera_position,
            height_text: self.height_text@,
        }
    }
}

impl SessionView {
    /// The box drawn for the platform with index `i`.
    pub open spec fn platform_box(self, i: int) -> PlatformBox {
        PlatformBox {
            id: i as usize,
            position: Point { x: self.platforms[i].x, y: self.platforms[i].y },
            size: BoxSize { width: PLATFORM_WIDTH, height: PLATFORM_HEIGHT },
        }
    }

    /// What is drawn for the session: the player, every platform in creation
    /// order, the camera and the height readout.
    pub open spec fn rendered(self) -> RenderStateView {
        RenderStateView {
            player_position: match self.player {
                Some(p) => Some(Point { x: p.x, y: p.y }),
                None => None,
            },
            player_box_size: BoxSize { width: PLAYER_WIDTH, height: PLAYER_HEIGHT },
            platforms: Seq::new(self.platforms.len(), |i: int| self.platform_box(i)),
            camera_position: Point { x: self.camera.x, y: self.camera.y },
            height_text: decimal(self.height()),
        }
    }

    /// The session after a frame of `dt` ticks: the simulation step, then,
    /// with a viewport, the platform generator on the given draws and camera
    /// follow.
    pub open spec fn ticked(
        self,
        dt: u32,
        events: Seq<InputEvent>,
        viewport: Option<Viewport>,
        draws: Seq<u64>,
        rise_draw: u64,
    ) -> SessionView {
        let advanced = self.advanced(dt, events, viewport);
        match viewport {
            Some(v) => advanced.spawned(v, draws, rise_draw).followed(v),
            None => advanced,
        }
    }
}

impl Session {
    /// What the presentation layer draws for the session, see
    /// [`SessionView::rendered`].
    pub fn render(&self) -> (frame: RenderState)
        ensures
            frame@ == self@.rendered(),
    {
        let mut boxes: Vec<PlatformBox> = Vec::new();
        let mut i: usize = 0;
        while i < self.platforms.len()
            invariant
                i <= self.platforms.len(),
                boxes@.len() == i,
                forall|j: int| 0 <= j < i ==> boxes@[j] == self@.platform_box(j),
            decreases self.platforms.len() - i,
        {
            let q = self.platforms[i];
            boxes.push(
                PlatformBox {
                    id: i,
                    position: Point { x: q.x, y: q.y },
                    size: BoxSize { width: PLATFORM_WIDTH, height: PLATFORM_HEIGHT },
                },
            );
            i += 1;
        }
        assert(boxes@ =~= self@.rendered().platforms);
        RenderState {
            player_position: match self.player {
                Some(p) => Some(Point { x: p.x, y: p.y }),
                None => None,
            },
            player_box_size: BoxSize { width: PLAYER_WIDTH, height: PLAYER_HEIGHT },
            platforms: boxes,
            camera_position: Point { x: self.camera.x, y: self.camera.y },
            height_text: self.update_height(),
        }
    }

    /// Runs one frame of `dt` ticks on fresh random draws and returns what is
    /// to be drawn. The session then is what [`SessionView::ticked`] gives for
    /// the values drawn.
    pub fn tick(&mut self, dt: u32, events: &Vec<InputEvent>, viewport: Option<Viewport>) -> (frame:
        RenderState)
        requires
            old(self).wf(),
        ensures
            exists|draws: Seq<u64>, rise_draw: u64|
                draws.len() <= MAX_SPAWN_ATTEMPTS && final(self)@ == #[trigger] old(self)@.ticked(
                    dt,
                    events@,
                    viewport,
                    draws,
                    rise_draw,
                ),
            final(self).wf(),
            frame@ == final(self)@.rendered(),
    {
        self.advance(dt, events, viewport);
        match viewport {
            Some(v) => {
                let ghost advanced = self@;
                self.spawn_platform(v);
                let ghost grown = self@;
                self.follow_player(v);
                proof {
                    let (draws, rise_draw) = choose|draws: Seq<u64>, rise_draw: u64|
                        draws.len() <= MAX_SPAWN_ATTEMPTS && grown == #[trigger] advanced.spawned(
                            v,
                            draws,
                            rise_draw,
                        );
                    assert(self@ == old(self)@.ticked(dt, events@, viewport, draws, rise_draw));
                }
            },
            None => {
                assert(self@ == old(self)@.ticked(dt, events@, viewport, Seq::<u64>::empty(), 0));
            },
        }
        self.render()
    }

    /// Runs one frame of `dt` ticks on draws made beforehand, see
    /// [`SessionView::ticked`].
    pub fn tick_with(
        &mut self,
        dt: u32,
        events: &Vec<InputEvent>,
        viewport: Option<Viewport>,
        draws: &Vec<u64>,
        rise_draw: u64,
    ) -> (frame: RenderState)
        requires
            old(self).wf(),
        ensures
            final(self)@ == old(self)@.ticked(dt, events@, viewport, draws@, rise_draw),
            final(self).wf(),
            frame@ == final(self)@.rendered(),
    {
        self.advance(dt, events, viewport);
        match viewport {
            Some(v) => {
                self.spawn_platform_with(v, draws, rise_draw);
                self.follow_player(v);
            },
            None => {},
        }
        self.render()
    }
}

} // verus!
