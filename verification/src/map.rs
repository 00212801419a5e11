//! The procedurally drifting river.
//!
//! The map keeps one `RiverPart` per visible line, newest first. Each tick
//! the oldest line is dropped, and a new front line is pushed that moves
//! both width and center a tenth of the way toward a target part; the
//! target itself is regenerated every few ticks according to the active
//! `RiverMode`. Because the new front is always between the old front and
//! the target, the river drifts without ever jumping.

use vstd::prelude::*;
use core::ops::Range;
use crate::entities::Location;
use crate::restorable::Restorable;
use crate::rng::rand_in_range;

verus! {

/// One line's worth of river: how wide it is and where its middle lies.
#[derive(Clone, Copy, PartialEq, Eq, Structural, Debug)]
pub struct RiverPart {
    pub width: u16,
    pub center_c: u16,
}

/// How new target river parts are generated.
#[derive(Clone, Copy, PartialEq, Eq, Structural, Debug)]
pub enum RiverMode {
    /// Width and center drawn uniformly, the center at most
    /// `max_center_diff` away from the current front line's center.
    Random { min_width: u16, max_width: u16, max_center_diff: u16 },
    /// Fixed width, drifting center.
    ConstWidth { width: u16, max_center_diff: u16 },
    /// Fixed center, random width.
    ConstCenter { center_c: u16, min_width: u16, max_width: u16 },
    /// Both fixed.
    ConstWidthAndCenter { width: u16, center_c: u16 },
}

/// The random modes need a non-empty width range to draw from.
pub open spec fn mode_wf(mode: RiverMode) -> bool {
    match mode {
        RiverMode::Random { min_width, max_width, .. } => min_width < max_width,
        RiverMode::ConstCenter { min_width, max_width, .. } => min_width < max_width,
        _ => true,
    }
}

/// Whether `center` lies within `diff` of `front_center`.
pub open spec fn center_within(center: u16, front_center: u16, diff: u16) -> bool {
    if center >= front_center {
        center - front_center <= diff
    } else {
        front_center - center <= diff
    }
}

/// What a freshly generated target part may look like under the given mode,
/// with `front` the current front line.
pub open spec fn target_ok(mode: RiverMode, front: RiverPart, t: RiverPart) -> bool {
    match mode {
        RiverMode::Random { min_width, max_width, max_center_diff } => {
            &&& min_width <= t.width < max_width
            &&& center_within(t.center_c, front.center_c, max_center_diff)
        },
        RiverMode::ConstWidth { width, max_center_diff } => {
            &&& t.width == width
            &&& center_within(t.center_c, front.center_c, max_center_diff)
        },
        RiverMode::ConstCenter { center_c, min_width, max_width } => {
            &&& min_width <= t.width < max_width
            &&& t.center_c == center_c
        },
        RiverMode::ConstWidthAndCenter { width, center_c } => t == (RiverPart {
            width,
            center_c,
        }),
    }
}

/// One exponential-smoothing step: moves a tenth of the remaining gap
/// toward the target, rounded up so any non-zero gap shrinks.
pub open spec fn approach_step(current: u16, target: u16) -> u16 {
    if target >= current {
        (current + (target - current + 9) / 10) as u16
    } else {
        (current - (current - target + 9) / 10) as u16
    }
}

/// RiverMap drift boundedness, smoothing half: the smoothed value stays between
/// the current value and the target (it never overshoots), and whenever the
/// two differ it moves strictly closer to the target.
pub proof fn lemma_approach_step(current: u16, target: u16)
    ensures
        target >= current ==> current <= approach_step(current, target) <= target,
        target <= current ==> target <= approach_step(current, target) <= current,
        current != target ==> (if target >= current {
            target - approach_step(current, target) < target - current
        } else {
            approach_step(current, target) - target < current - target
        }),
{
    if target >= current {
        let gap = target - current;
        assert(gap >= 1 ==> 1 <= (gap + 9) / 10 <= gap) by (nonlinear_arith);
        assert(gap >= 0 ==> (gap + 9) / 10 >= 0) by (nonlinear_arith);
    } else {
        let gap = current - target;
        assert(gap >= 1 ==> 1 <= (gap + 9) / 10 <= gap) by (nonlinear_arith);
        assert(gap >= 0 ==> (gap + 9) / 10 >= 0) by (nonlinear_arith);
    }
}

/// The river map: the visible window of parts (newest first), the drift
/// target, and the countdown until the target is regenerated.
pub struct RiverMap {
    pub max_c: u16,
    pub max_l: u16,
    /// Generation mode, restorable after scripted overrides.
    pub river_mode: Restorable<RiverMode>,
    /// One part per visible line; index 0 is the newest (top) line.
    pub river_parts: Vec<RiverPart>,
    /// Countdown until the next re-target.
    pub next_point: u16,
    /// How much the countdown falls per tick.
    pub change_rate: u16,
    /// The part the front of the river drifts toward.
    pub target_river: RiverPart,
}

impl RiverMap {
    /// The window always holds exactly one part per visible line, the
    /// viewport is non-empty, and both the active and the baseline mode can
    /// be drawn from.
    pub open spec fn wf(self) -> bool {
        &&& self.river_parts@.len() == self.max_l
        &&& self.max_l >= 1
        &&& self.max_c >= 1
        &&& mode_wf(self.river_mode.value)
        &&& mode_wf(self.river_mode.solid)
    }

    /// Builds a map in `Random` mode whose window is uniformly as wide as
    /// `max_width`, centered mid-screen.
    pub fn new(
        max_c: u16,
        max_l: u16,
        min_width: u16,
        max_width: u16,
        change_rate: u16,
        max_center_diff: u16,
    ) -> (r: Self)
        requires
            max_c >= 1,
            max_l >= 1,
            min_width < max_width,
        ensures
            r.wf(),
            r.max_c == max_c,
            r.max_l == max_l,
            r.river_mode.value == (RiverMode::Random { min_width, max_width, max_center_diff }),
            r.river_mode.solid == r.river_mode.value,
            r.next_point == max_l,
            r.change_rate == change_rate,
            r.target_river == (RiverPart { width: max_width, center_c: max_c / 2 }),
            forall|i: int|
                0 <= i < r.river_parts@.len() ==> r.river_parts@[i] == (RiverPart {
                    width: max_width,
                    center_c: max_c / 2,
                }),
    {
        let part = RiverPart { width: max_width, center_c: max_c / 2 };
        let mut parts: Vec<RiverPart> = Vec::new();
        let mut i: u16 = 0;
        while i < max_l
            invariant
                i <= max_l,
                parts@.len() == i,
                forall|j: int| 0 <= j < parts@.len() ==> parts@[j] == part,
            decreases max_l - i,
        {
            parts.push(part);
            i = i + 1;
        }
        let mode = RiverMode::Random { min_width, max_width, max_center_diff };
        RiverMap {
            max_c,
            max_l,
            next_point: max_l,
            river_parts: parts,
            change_rate,
            river_mode: Restorable::from_value(mode),
            target_river: part,
        }
    }

    /// The newest (top) line of the river, if any.
    pub fn front(&self) -> (r: Option<&RiverPart>)
        ensures
            match r {
                Some(p) => self.river_parts@.len() > 0 && *p == self.river_parts@[0],
                None => self.river_parts@.len() == 0,
            },
    {
        if self.river_parts.len() > 0 {
            Some(&self.river_parts[0])
        } else {
            None
        }
    }

    /// The whole visible window, newest first.
    pub fn river_parts(&self) -> (r: &Vec<RiverPart>)
        ensures
            r == &self.river_parts,
    {
        &self.river_parts
    }

    /// The left border (inclusive) of the channel a part spans.
    pub open spec fn left_border_spec(self, p: RiverPart) -> u16 {
        if p.center_c >= p.width / 2 {
            (p.center_c - p.width / 2) as u16
        } else {
            0u16
        }
    }

    /// The right border (exclusive) of the channel a part spans, clamped to
    /// the screen.
    pub open spec fn right_border_spec(self, p: RiverPart) -> u16 {
        if p.center_c + p.width / 2 >= self.max_c {
            self.max_c
        } else {
            (p.center_c + p.width / 2) as u16
        }
    }

    /// The half-open column range of the channel a part spans.
    pub fn river_borders(&self, river: &RiverPart) -> (r: Range<u16>)
        ensures
            r.start == self.left_border_spec(*river),
            r.end == self.right_border_spec(*river),
    {
        let offset = river.width / 2;
        let left_border = if river.center_c >= offset {
            river.center_c - offset
        } else {
            0
        };
        let right_wide: u32 = river.center_c as u32 + offset as u32;
        let right_border = if right_wide >= self.max_c as u32 {
            self.max_c
        } else {
            right_wide as u16
        };
        left_border..right_border
    }

    /// The channel range of the given visible line.
    pub fn river_borders_at(&self, line: usize) -> (r: Range<u16>)
        requires
            line < self.river_parts@.len(),
        ensures
            r.start == self.left_border_spec(self.river_parts@[line as int]),
            r.end == self.right_border_spec(self.river_parts@[line as int]),
    {
        self.river_borders(&self.river_parts[line])
    }

    /// The channel range of the given visible line.
    pub fn river_borders_index(&self, line: usize) -> (r: Range<u16>)
        requires
            line < self.river_parts@.len(),
        ensures
            r.start == self.left_border_spec(self.river_parts@[line as int]),
            r.end == self.right_border_spec(self.river_parts@[line as int]),
    {
        self.river_borders_at(line)
    }

    /// Whether a location lies inside the river channel of its line.
    pub open spec fn in_river_spec(self, loc: Location) -> bool {
        let p = self.river_parts@[loc.line as int];
        self.left_border_spec(p) <= loc.column < self.right_border_spec(p)
    }

    /// Whether a location lies inside the river channel of its line.
    pub fn is_in_river(&self, loc: &Location) -> (r: bool)
        requires
            loc.line < self.river_parts@.len(),
        ensures
            r == self.in_river_spec(*loc),
    {
        let borders = self.river_borders_at(loc.line as usize);
        borders.start <= loc.column && loc.column < borders.end
    }

    /// The smoothing step applied to the current front line: both width and
    /// center move toward the target.
    pub open spec fn decide_next_spec(self) -> RiverPart {
        RiverPart {
            width: approach_step(self.river_parts@[0].width, self.target_river.width),
            center_c: approach_step(self.river_parts@[0].center_c, self.target_river.center_c),
        }
    }

    /// Computes the next front line by smoothing toward the target.
    fn decide_next(&self) -> (r: RiverPart)
        requires
            self.wf(),
        ensures
            r == self.decide_next_spec(),
    {
        let front = self.river_parts[0];
        RiverPart {
            width: approach_exec(front.width, self.target_river.width),
            center_c: approach_exec(front.center_c, self.target_river.center_c),
        }
    }
}

impl RiverPart {
    /// Builds a part directly from its width and center.
    pub fn new(width: u16, center_c: u16) -> (r: Self)
        ensures
            r == (RiverPart { width, center_c }),
    {
        RiverPart { width, center_c }
    }

    /// Generates a fresh target part for the map's active mode. Under the
    /// two drifting modes the new center is clamped to lie within the
    /// mode's `max_center_diff` of the current front line's center.
    pub fn from_map(map: &RiverMap) -> (r: RiverPart)
        requires
            map.wf(),
        ensures
            target_ok(map.river_mode.value, map.river_parts@[0], r),
    {
        match map.river_mode.value {
            RiverMode::Random { min_width, max_width, max_center_diff } => {
                let width = rand_in_range(min_width, max_width);
                let drawn = rand_in_range(0, map.max_c);
                let center = clamp_center(drawn, map.river_parts[0].center_c, max_center_diff);
                RiverPart { width, center_c: center }
            },
            RiverMode::ConstWidth { width, max_center_diff } => {
                let drawn = rand_in_range(0, map.max_c);
                let center = clamp_center(drawn, map.river_parts[0].center_c, max_center_diff);
                RiverPart { width, center_c: center }
            },
            RiverMode::ConstCenter { center_c, min_width, max_width } => {
                let width = rand_in_range(min_width, max_width);
                RiverPart { width, center_c }
            },
            RiverMode::ConstWidthAndCenter { width, center_c } => RiverPart { width, center_c },
        }
    }
}

impl RiverMap {
    /// Advances the river one tick: when the countdown has run out, a new
    /// target is generated for the active mode and the countdown restarts;
    /// then the oldest line is dropped and the smoothed next front line is
    /// pushed, and the countdown falls by the change rate.
    pub fn update(&mut self)
        requires
            old(self).wf(),
        ensures
            final(self).wf(),
            final(self).max_c == old(self).max_c,
            final(self).max_l == old(self).max_l,
            final(self).river_mode == old(self).river_mode,
            final(self).change_rate == old(self).change_rate,
            old(self).next_point <= old(self).change_rate ==> target_ok(
                old(self).river_mode.value,
                old(self).river_parts@[0],
                final(self).target_river,
            ) && final(self).next_point == if old(self).max_l >= old(self).change_rate {
                (old(self).max_l - old(self).change_rate) as u16
            } else {
                0u16
            },
            old(self).next_point > old(self).change_rate ==> final(self).target_river == old(
                self,
            ).target_river && final(self).next_point == (old(self).next_point - old(
                self,
            ).change_rate) as u16,
            final(self).river_parts@.len() == old(self).river_parts@.len(),
            final(self).river_parts@[0] == (RiverPart {
                width: approach_step(old(self).river_parts@[0].width, final(self).target_river.width),
                center_c: approach_step(
                    old(self).river_parts@[0].center_c,
                    final(self).target_river.center_c,
                ),
            }),
            final(self).river_parts@.skip(1) == old(self).river_parts@.take(
                old(self).river_parts@.len() - 1,
            ),
    {
        if self.next_point <= self.change_rate {
            self.target_river = RiverPart::from_map(self);
            self.next_point = self.max_l;
        }
        let next = self.decide_next();
        let _dropped = self.river_parts.pop();
        self.river_parts.insert(0, next);
        self.next_point = if self.next_point >= self.change_rate {
            self.next_point - self.change_rate
        } else {
            0
        };
        proof {
            assert(self.river_parts@.skip(1) =~= old(self).river_parts@.take(
                old(self).river_parts@.len() - 1,
            ));
        }
    }

    /// Puts a new generation mode in effect, leaving the baseline alone.
    pub fn change_river_mode(&mut self, mode: RiverMode)
        requires
            mode_wf(mode),
        ensures
            final(self).river_mode.value == mode,
            final(self).river_mode.solid == old(self).river_mode.solid,
            final(self).max_c == old(self).max_c,
            final(self).max_l == old(self).max_l,
            final(self).river_parts == old(self).river_parts,
            final(self).next_point == old(self).next_point,
            final(self).change_rate == old(self).change_rate,
            final(self).target_river == old(self).target_river,
    {
        self.river_mode.value = mode;
    }

    /// Puts the baseline generation mode back in effect.
    pub fn restore_river_mode(&mut self)
        ensures
            final(self).river_mode.value == old(self).river_mode.solid,
            final(self).river_mode.solid == old(self).river_mode.solid,
            final(self).max_c == old(self).max_c,
            final(self).max_l == old(self).max_l,
            final(self).river_parts == old(self).river_parts,
            final(self).next_point == old(self).next_point,
            final(self).change_rate == old(self).change_rate,
            final(self).target_river == old(self).target_river,
    {
        self.river_mode.restore();
    }
}

/// Clamps a drawn center so it stays within `diff` of the front center.
fn clamp_center(drawn: u16, front_center: u16, diff: u16) -> (r: u16)
    ensures
        center_within(r, front_center, diff),
{
    if drawn > front_center {
        if drawn - front_center > diff {
            front_center + diff
        } else {
            drawn
        }
    } else {
        if front_center - drawn > diff {
            front_center - diff
        } else {
            drawn
        }
    }
}

/// Executes one smoothing step without overflowing.
fn approach_exec(current: u16, target: u16) -> (r: u16)
    ensures
        r == approach_step(current, target),
{
    if target >= current {
        let gap: u32 = (target - current) as u32;
        proof {
            assert(gap >= 1 ==> 1 <= (gap + 9) / 10 <= gap) by (nonlinear_arith);
        }
        let step: u32 = (gap + 9) / 10;
        current + (step as u16)
    } else {
        let gap: u32 = (current - target) as u32;
        proof {
            assert(gap >= 1 ==> 1 <= (gap + 9) / 10 <= gap) by (nonlinear_arith);
        }
        let step: u32 = (gap + 9) / 10;
        current - (step as u16)
    }
}

} // verus!
