//! The platform generator: places one new platform above the highest one,
//! clear of the anchor platform.
//!
//! The horizontal place is found by rejection sampling with a bounded number
//! of attempts. When every attempt is rejected, or the viewport leaves no room
//! to sample from, a deterministic place beside the anchor is taken.

use vstd::prelude::*;
use crate::geometry::{
    MAX_SPAWN_ATTEMPTS, PLATFORM_LIMIT, PLATFORM_WIDTH, SPAWN_MAX_RISE, SPAWN_MIN_RISE, Viewport,
    distance,
};
use crate::world::{Platform, Session, SessionView, highest_y, lemma_highest_y};

verus! {

/// A 64-bit value from `rand::random`, which draws from the generator of the
/// current thread. Nothing is claimed of the value: callers are proved for
/// every `u64`.
#[verifier::external_body]
fn draw() -> (r: u64) {
    rand::random::<u64>()
}

/// Whether a platform at `x` keeps more than a platform width of distance
/// from the anchor at `anchor_x`.
pub open spec fn spec_clear_of(x: int, anchor_x: int) -> bool {
    distance(x, anchor_x) > PLATFORM_WIDTH
}

/// The height gained by a new platform for a draw: between
/// [`SPAWN_MIN_RISE`] and [`SPAWN_MAX_RISE`], ends included.
pub open spec fn spec_rise(draw: u64) -> int {
    SPAWN_MIN_RISE + draw as int % (SPAWN_MAX_RISE - SPAWN_MIN_RISE + 1)
}

/// The place taken when sampling fails. With `lo` and `hi` the ends of the
/// sampling range: the nearest place right of the anchor that is clear of it
/// and in the range; else the nearest such place left of it; else, when no
/// place in the range is clear of the anchor, the nearest clear place on the
/// side of the anchor that faces x 0.
pub open spec fn spec_fallback_x(anchor_x: int, lo: int, hi: int) -> int {
    let right = vstd::math::max(anchor_x + PLATFORM_WIDTH + 1, lo);
    let left = vstd::math::min(anchor_x - PLATFORM_WIDTH - 1, hi);
    if right <= hi {
        right
    } else if left >= lo {
        left
    } else if anchor_x <= 0 {
        anchor_x + PLATFORM_WIDTH + 1
    } else {
        anchor_x - PLATFORM_WIDTH - 1
    }
}

impl Viewport {
    /// The number of places in the sampling range; not positive where the
    /// viewport is narrower than a platform.
    pub open spec fn spec_spawn_span(self) -> int {
        self.spec_spawn_max_x() - self.spec_spawn_min_x() + 1
    }

    /// The place in the sampling range that a draw stands for.
    pub open spec fn spec_candidate_x(self, draw: u64) -> int {
        self.spec_spawn_min_x() + draw as int % self.spec_spawn_span()
    }

    /// The fallback place for this viewport, see [`spec_fallback_x`].
    pub open spec fn spec_fallback_x(self, anchor_x: int) -> int {
        spec_fallback_x(anchor_x, self.spec_spawn_min_x(), self.spec_spawn_max_x())
    }

    /// The x of the new platform for a sequence of draws: the candidate of the
    /// first draw that is clear of the anchor, and the fallback place where
    /// there is none or the sampling range is empty.
    pub open spec fn spec_pick_x(self, draws: Seq<u64>, anchor_x: int) -> int
        decreases draws.len(),
    {
        if self.spec_spawn_span() <= 0 || draws.len() == 0 {
            self.spec_fallback_x(anchor_x)
        } else if spec_clear_of(self.spec_candidate_x(draws[0]), anchor_x) {
            self.spec_candidate_x(draws[0])
        } else {
            self.spec_pick_x(draws.skip(1), anchor_x)
        }
    }

    /// Computes [`Viewport::spec_candidate_x`].
    pub fn candidate_x(self, draw: u64) -> (r: i64)
        requires
            self.spec_spawn_span() > 0,
        ensures
            r == self.spec_candidate_x(draw),
            self.spec_spawn_min_x() <= r <= self.spec_spawn_max_x(),
    {
        let lo: i64 = self.spawn_min_x();
        let span: i64 = self.spawn_max_x() - lo + 1;
        let offset: u64 = draw % (span as u64);
        lo + offset as i64
    }

    /// Computes [`Viewport::spec_fallback_x`].
    pub fn fallback_x(self, anchor_x: i64) -> (r: i64)
        requires
            -PLATFORM_LIMIT <= anchor_x <= PLATFORM_LIMIT,
        ensures
            r == self.spec_fallback_x(anchor_x as int),
    {
        let lo: i64 = self.spawn_min_x();
        let hi: i64 = self.spawn_max_x();
        let beside_right: i64 = anchor_x + PLATFORM_WIDTH + 1;
        let beside_left: i64 = anchor_x - PLATFORM_WIDTH - 1;
        let right: i64 = if beside_right >= lo {
            beside_right
        } else {
            lo
        };
        let left: i64 = if beside_left <= hi {
            beside_left
        } else {
            hi
        };
        if right <= hi {
            right
        } else if left >= lo {
            left
        } else if anchor_x <= 0 {
            beside_right
        } else {
            beside_left
        }
    }

    /// Computes [`Viewport::spec_pick_x`] for draws made beforehand.
    pub fn pick_x(self, draws: &Vec<u64>, anchor_x: i64) -> (r: i64)
        requires
            -PLATFORM_LIMIT <= anchor_x <= PLATFORM_LIMIT,
        ensures
            r == self.spec_pick_x(draws@, anchor_x as int),
    {
        if self.spawn_max_x() - self.spawn_min_x() + 1 <= 0 {
            return self.fallback_x(anchor_x);
        }
        let mut i: usize = 0;
        assert(draws@.skip(0) =~= draws@);
        while i < draws.len()
            invariant
                i <= draws.len(),
                self.spec_spawn_span() > 0,
                -PLATFORM_LIMIT <= anchor_x <= PLATFORM_LIMIT,
                self.spec_pick_x(draws@, anchor_x as int) == self.spec_pick_x(
                    draws@.skip(i as int),
                    anchor_x as int,
                ),
            decreases draws.len() - i,
        {
            let x: i64 = self.candidate_x(draws[i]);
            assert(draws@.skip(i as int).skip(1) =~= draws@.skip(i + 1));
            if clear_of(x, anchor_x) {
                return x;
            }
            i += 1;
        }
        self.fallback_x(anchor_x)
    }
}

/// Computes [`spec_clear_of`].
pub fn clear_of(x: i64, anchor_x: i64) -> (r: bool)
    ensures
        r == spec_clear_of(x as int, anchor_x as int),
{
    let gap: i128 = if x >= anchor_x {
        x as i128 - anchor_x as i128
    } else {
        anchor_x as i128 - x as i128
    };
    gap > PLATFORM_WIDTH as i128
}

/// Computes [`spec_rise`].
pub fn rise(draw: u64) -> (r: i64)
    ensures
        r == spec_rise(draw),
        SPAWN_MIN_RISE <= r <= SPAWN_MAX_RISE,
{
    let span: u64 = (SPAWN_MAX_RISE - SPAWN_MIN_RISE + 1) as u64;
    SPAWN_MIN_RISE + (draw % span) as i64
}

/// Draws rejected by a viewport and an anchor do not change the place picked
/// from the draws that follow them.
pub proof fn lemma_rejected_draws(
    viewport: Viewport,
    rejected: Seq<u64>,
    rest: Seq<u64>,
    anchor_x: int,
)
    requires
        viewport.spec_spawn_span() > 0,
        forall|i: int|
            0 <= i < rejected.len() ==> !spec_clear_of(
                viewport.spec_candidate_x(#[trigger] rejected[i]),
                anchor_x,
            ),
    ensures
        viewport.spec_pick_x(rejected + rest, anchor_x) == viewport.spec_pick_x(rest, anchor_x),
    decreases rejected.len(),
{
    if rejected.len() == 0 {
        assert(rejected + rest =~= rest);
    } else {
        let later = rejected.skip(1);
        assert((rejected + rest).skip(1) =~= later + rest);
        assert forall|i: int| 0 <= i < later.len() implies !spec_clear_of(
            viewport.spec_candidate_x(#[trigger] later[i]),
            anchor_x,
        ) by {
            assert(later[i] == rejected[i + 1]);
        }
        lemma_rejected_draws(viewport, later, rest, anchor_x);
    }
}

/// The place picked is clear of the anchor, whatever the draws. It lies in the
/// sampling range whenever a place of the range is clear of the anchor.
pub proof fn lemma_pick_x(viewport: Viewport, draws: Seq<u64>, anchor_x: int)
    ensures
        spec_clear_of(viewport.spec_pick_x(draws, anchor_x), anchor_x),
        (exists|x: int|
            viewport.spec_spawn_min_x() <= x <= viewport.spec_spawn_max_x() && #[trigger] spec_clear_of(
                x,
                anchor_x,
            )) ==> viewport.spec_spawn_min_x() <= viewport.spec_pick_x(draws, anchor_x)
            <= viewport.spec_spawn_max_x(),
        -PLATFORM_LIMIT <= anchor_x <= PLATFORM_LIMIT ==> -PLATFORM_LIMIT <= viewport.spec_pick_x(
            draws,
            anchor_x,
        ) <= PLATFORM_LIMIT,
    decreases draws.len(),
{
    if viewport.spec_spawn_span() > 0 && draws.len() > 0 && !spec_clear_of(
        viewport.spec_candidate_x(draws[0]),
        anchor_x,
    ) {
        lemma_pick_x(viewport, draws.skip(1), anchor_x);
    }
}

impl SessionView {
    /// The platform generated for the given draws: at the place picked for the
    /// x draws, and above the highest platform by the rise of the last draw,
    /// at most at [`PLATFORM_LIMIT`].
    pub open spec fn generated(self, viewport: Viewport, draws: Seq<u64>, rise_draw: u64) -> Platform {
        Platform {
            x: viewport.spec_pick_x(draws, self.anchor_x()) as i64,
            y: vstd::math::min(
                highest_y(self.platforms) + spec_rise(rise_draw),
                PLATFORM_LIMIT as int,
            ) as i64,
        }
    }

    /// The session after the generator ran. Where a platform is owed, the
    /// generated platform is added behind the others and the debt is cleared;
    /// else nothing changes.
    pub open spec fn spawned(self, viewport: Viewport, draws: Seq<u64>, rise_draw: u64) -> SessionView {
        if self.pending_spawn {
            SessionView {
                platforms: self.platforms.push(self.generated(viewport, draws, rise_draw)),
                pending_spawn: false,
                ..self
            }
        } else {
            self
        }
    }
}

impl Session {
    /// Adds the platform at `(x, y + rise)` capped at [`PLATFORM_LIMIT`], with
    /// `y` the height of the highest platform, and clears the debt.
    fn place(&mut self, x: i64, rise: i64)
        requires
            old(self).wf(),
            -PLATFORM_LIMIT <= x <= PLATFORM_LIMIT,
            SPAWN_MIN_RISE <= rise <= SPAWN_MAX_RISE,
        ensures
            final(self).wf(),
            final(self)@ == (SessionView {
                platforms: old(self)@.platforms.push(
                    Platform {
                        x,
                        y: vstd::math::min(
                            highest_y(old(self)@.platforms) + rise,
                            PLATFORM_LIMIT as int,
                        ) as i64,
                    },
                ),
                pending_spawn: false,
                ..old(self)@
            }),
    {
        proof {
            lemma_highest_y(self.platforms@);
        }
        let top: i64 = self.highest_y();
        let y: i64 = if top > PLATFORM_LIMIT - rise {
            PLATFORM_LIMIT
        } else {
            top + rise
        };
        self.platforms.push(Platform { x, y });
        self.pending_spawn = false;
    }

    /// Runs the generator on draws made beforehand, see
    /// [`SessionView::spawned`].
    pub fn spawn_platform_with(&mut self, viewport: Viewport, draws: &Vec<u64>, rise_draw: u64)
        requires
            old(self).wf(),
        ensures
            final(self)@ == old(self)@.spawned(viewport, draws@, rise_draw),
            final(self).wf(),
    {
        if !self.pending_spawn {
            return ;
        }
        let anchor_x: i64 = self.anchor_x();
        proof {
            lemma_pick_x(viewport, draws@, anchor_x as int);
        }
        let x: i64 = viewport.pick_x(draws, anchor_x);
        self.place(x, rise(rise_draw));
    }

    /// Runs the generator on fresh random draws. Where a platform is owed,
    /// candidates are drawn until one is clear of the anchor, at most
    /// [`MAX_SPAWN_ATTEMPTS`] times; the session then is what
    /// [`SessionView::spawned`] gives for the values drawn.
    pub fn spawn_platform(&mut self, viewport: Viewport)
        requires
            old(self).wf(),
        ensures
            exists|draws: Seq<u64>, rise_draw: u64|
                draws.len() <= MAX_SPAWN_ATTEMPTS && final(self)@ == #[trigger] old(self)@.spawned(
                    viewport,
                    draws,
                    rise_draw,
                ),
            final(self).wf(),
    {
        if !self.pending_spawn {
            assert(self@ == self@.spawned(viewport, Seq::<u64>::empty(), 0));
            return ;
        }
        let anchor_x: i64 = self.anchor_x();
        let ghost mut drawn: Seq<u64> = Seq::empty();
        let mut found: Option<i64> = None;
        if viewport.spawn_max_x() - viewport.spawn_min_x() + 1 > 0 {
            let mut attempts: usize = 0;
            while attempts < MAX_SPAWN_ATTEMPTS && found.is_none()
                invariant
                    attempts <= MAX_SPAWN_ATTEMPTS,
                    viewport.spec_spawn_span() > 0,
                    drawn.len() == attempts,
                    found is None ==> forall|i: int|
                        0 <= i < drawn.len() ==> !spec_clear_of(
                            viewport.spec_candidate_x(#[trigger] drawn[i]),
                            anchor_x as int,
                        ),
                    found matches Some(x) ==> x == viewport.spec_pick_x(drawn, anchor_x as int),
                decreases MAX_SPAWN_ATTEMPTS - attempts,
            {
                let value: u64 = draw();
                let x: i64 = viewport.candidate_x(value);
                proof {
                    let single = seq![value];
                    lemma_rejected_draws(viewport, drawn, single, anchor_x as int);
                    assert(drawn + single =~= drawn.push(value));
                    drawn = drawn.push(value);
                }
                if clear_of(x, anchor_x) {
                    found = Some(x);
                }
                attempts += 1;
            }
        }
        let x: i64 = match found {
            Some(x) => x,
            None => {
                proof {
                    if viewport.spec_spawn_span() > 0 {
                        lemma_rejected_draws(viewport, drawn, Seq::empty(), anchor_x as int);
                        assert(drawn + Seq::<u64>::empty() =~= drawn);
                    }
                }
                viewport.fallback_x(anchor_x)
            },
        };
        let rise_draw: u64 = draw();
        proof {
            lemma_pick_x(viewport, drawn, anchor_x as int);
        }
        self.place(x, rise(rise_draw));
        assert(self@ == old(self)@.spawned(viewport, drawn, rise_draw));
    }
}

} // verus!
