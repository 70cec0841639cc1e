//! The input aggregator: turns the press, hold and release events of a frame
//! into at most one launch command.

use vstd::prelude::*;
use crate::geometry::{WORLD_LIMIT, Viewport, confine_to, confine_world};

verus! {

/// The kind of a pointer or touch event.
#[derive(Clone, Copy, Debug, PartialEq, Eq, Structural)]
pub enum EventKind {
    Press,
    Hold,
    Release,
}

/// A pointer or touch event with the screen x at which it happened.
#[derive(Clone, Copy, Debug, PartialEq, Eq, Structural)]
pub struct InputEvent {
    pub kind: EventKind,
    pub pointer_x: i64,
}

/// The state of the launch gesture.
#[derive(Clone, Copy, Debug, PartialEq, Eq, Structural)]
pub enum Aim {
    /// No press is being held.
    Idle,
    /// A press is being held; the field is the hold time accumulated so far,
    /// in ticks.
    Charging(u32),
}

/// The command a completed gesture gives: jump toward `target_x` with the
/// strength of `charge` ticks of holding.
#[derive(Clone, Copy, Debug, PartialEq, Eq, Structural)]
pub struct Launch {
    pub target_x: i64,
    pub charge: u32,
}

/// The world x under a pointer at screen x `pointer_x`: the screen x minus
/// half the viewport width, confined to the world.
pub open spec fn spec_target_x(pointer_x: i64, viewport: Viewport) -> int {
    confine_world(pointer_x - viewport.spec_half_width())
}

/// Computes [`spec_target_x`].
pub fn target_x(pointer_x: i64, viewport: Viewport) -> (r: i64)
    ensures
        r == spec_target_x(pointer_x, viewport),
        -WORLD_LIMIT <= r <= WORLD_LIMIT,
{
    confine_to(pointer_x as i128 - viewport.half_width() as i128, -WORLD_LIMIT, WORLD_LIMIT)
}

impl Aim {
    /// The effect of one event on a grounded player's gesture. A press arms
    /// the gesture with no charge, also when one is armed already. A release
    /// of an armed gesture gives the launch command and disarms; without a
    /// viewport the pointer has no world position and the release is passed
    /// over. A hold changes nothing.
    pub open spec fn spec_on_event(self, event: InputEvent, viewport: Option<Viewport>) -> (
        Aim,
        Option<Launch>,
    ) {
        match event.kind {
            EventKind::Press => (Aim::Charging(0), None),
            EventKind::Hold => (self, None),
            EventKind::Release => match (self, viewport) {
                (Aim::Charging(charge), Some(v)) => (
                    Aim::Idle,
                    Some(Launch { target_x: spec_target_x(event.pointer_x, v) as i64, charge }),
                ),
                _ => (self, None),
            },
        }
    }

    /// The effect of the events of a frame, in order, up to and including the
    /// first that gives a launch command. Later events of the frame are
    /// ignored.
    pub open spec fn spec_on_events(
        self,
        events: Seq<InputEvent>,
        viewport: Option<Viewport>,
    ) -> (Aim, Option<Launch>)
        decreases events.len(),
    {
        if events.len() == 0 {
            (self, None)
        } else {
            let step = self.spec_on_event(events[0], viewport);
            if step.1 is Some {
                step
            } else {
                step.0.spec_on_events(events.skip(1), viewport)
            }
        }
    }

    /// An armed gesture gains `dt` ticks of charge, up to the greatest
    /// representable charge.
    pub open spec fn spec_held(self, dt: u32) -> Aim {
        match self {
            Aim::Idle => Aim::Idle,
            Aim::Charging(charge) => Aim::Charging(
                if charge + dt > u32::MAX {
                    u32::MAX
                } else {
                    (charge + dt) as u32
                },
            ),
        }
    }

    /// The gesture after a frame of `dt` ticks, and the launch command the
    /// frame gives. While the player is airborne nothing changes. Otherwise
    /// the events apply in order; if none of them launches, a gesture that is
    /// armed at the end of the events gains `dt` of charge.
    pub open spec fn spec_frame(
        self,
        grounded: bool,
        events: Seq<InputEvent>,
        dt: u32,
        viewport: Option<Viewport>,
    ) -> (Aim, Option<Launch>) {
        if !grounded {
            (self, None)
        } else {
            let seen = self.spec_on_events(events, viewport);
            if seen.1 is Some {
                seen
            } else {
                (seen.0.spec_held(dt), None)
            }
        }
    }

    /// Computes [`Aim::spec_on_event`].
    pub fn on_event(self, event: InputEvent, viewport: Option<Viewport>) -> (r: (
        Aim,
        Option<Launch>,
    ))
        ensures
            r == self.spec_on_event(event, viewport),
    {
        match event.kind {
            EventKind::Press => (Aim::Charging(0), None),
            EventKind::Hold => (self, None),
            EventKind::Release => match (self, viewport) {
                (Aim::Charging(charge), Some(v)) => (
                    Aim::Idle,
                    Some(Launch { target_x: target_x(event.pointer_x, v), charge }),
                ),
                _ => (self, None),
            },
        }
    }

    /// Computes [`Aim::spec_held`].
    pub fn held(self, dt: u32) -> (r: Aim)
        ensures
            r == self.spec_held(dt),
    {
        match self {
            Aim::Idle => Aim::Idle,
            Aim::Charging(charge) => Aim::Charging(charge.saturating_add(dt)),
        }
    }

    /// Computes [`Aim::spec_frame`].
    pub fn frame(
        self,
        grounded: bool,
        events: &Vec<InputEvent>,
        dt: u32,
        viewport: Option<Viewport>,
    ) -> (r: (Aim, Option<Launch>))
        ensures
            r == self.spec_frame(grounded, events@, dt, viewport),
    {
        if !grounded {
            return (self, None);
        }
        let mut aim = self;
        let mut i: usize = 0;
        assert(events@.skip(0) =~= events@);
        while i < events.len()
            invariant
                grounded,
                i <= events.len(),
                self.spec_on_events(events@, viewport) == aim.spec_on_events(
                    events@.skip(i as int),
                    viewport,
                ),
            decreases events.len() - i,
        {
            let step = aim.on_event(events[i], viewport);
            assert(events@.skip(i as int).skip(1) =~= events@.skip(i + 1));
            if step.1.is_some() {
                return step;
            }
            aim = step.0;
            i += 1;
        }
        (aim.held(dt), None)
    }
}

/// A launch command leaves the gesture disarmed, and one is given only to a
/// grounded player whose gesture was armed at some point of the frame.
pub proof fn lemma_launch_disarms(
    aim: Aim,
    grounded: bool,
    events: Seq<InputEvent>,
    dt: u32,
    viewport: Option<Viewport>,
)
    ensures
        aim.spec_frame(grounded, events, dt, viewport).1 is Some ==> grounded && viewport is Some
            && aim.spec_frame(grounded, events, dt, viewport).0 == Aim::Idle,
{
    lemma_events_launch_disarms(aim, events, viewport);
}

/// The launch command of a sequence of events comes with a disarmed gesture.
pub proof fn lemma_events_launch_disarms(
    aim: Aim,
    events: Seq<InputEvent>,
    viewport: Option<Viewport>,
)
    ensures
        aim.spec_on_events(events, viewport).1 is Some ==> viewport is Some && aim.spec_on_events(
            events,
            viewport,
        ).0 == Aim::Idle,
    decreases events.len(),
{
    if events.len() > 0 {
        let step = aim.spec_on_event(events[0], viewport);
        if step.1 is None {
            lemma_events_launch_disarms(step.0, events.skip(1), viewport);
        }
    }
}

/// A frame in which a grounded player's pointer is only held adds the frame's
/// length to the charge of an armed gesture, and leaves a disarmed one alone.
pub proof fn lemma_hold_charges(
    aim: Aim,
    events: Seq<InputEvent>,
    dt: u32,
    viewport: Option<Viewport>,
)
    requires
        forall|i: int| 0 <= i < events.len() ==> (#[trigger] events[i]).kind == EventKind::Hold,
    ensures
        aim.spec_frame(true, events, dt, viewport) == (aim.spec_held(dt), None::<Launch>),
        aim matches Aim::Charging(charge) ==> charge + dt <= u32::MAX ==> aim.spec_frame(
            true,
            events,
            dt,
            viewport,
        ).0 == Aim::Charging((charge + dt) as u32),
{
    lemma_holds_change_nothing(aim, events, viewport);
}

/// Events that are all holds leave the gesture as it is and give no launch.
pub proof fn lemma_holds_change_nothing(
    aim: Aim,
    events: Seq<InputEvent>,
    viewport: Option<Viewport>,
)
    requires
        forall|i: int| 0 <= i < events.len() ==> (#[trigger] events[i]).kind == EventKind::Hold,
    ensures
        aim.spec_on_events(events, viewport) == (aim, None::<Launch>),
    decreases events.len(),
{
    if events.len() > 0 {
        let rest = events.skip(1);
        assert forall|i: int| 0 <= i < rest.len() implies (#[trigger] rest[i]).kind
            == EventKind::Hold by {
            assert(rest[i] == events[i + 1]);
        }
        lemma_holds_change_nothing(aim, rest, viewport);
    }
}

/// Without a release among them, the events of a frame give no launch.
pub proof fn lemma_events_without_release(
    aim: Aim,
    events: Seq<InputEvent>,
    viewport: Option<Viewport>,
)
    requires
        forall|i: int| 0 <= i < events.len() ==> (#[trigger] events[i]).kind != EventKind::Release,
    ensures
        aim.spec_on_events(events, viewport).1 is None,
    decreases events.len(),
{
    if events.len() > 0 {
        let step = aim.spec_on_event(events[0], viewport);
        let rest = events.skip(1);
        assert forall|i: int| 0 <= i < rest.len() implies (#[trigger] rest[i]).kind
            != EventKind::Release by {
            assert(rest[i] == events[i + 1]);
        }
        lemma_events_without_release(step.0, rest, viewport);
    }
}

} // verus!
