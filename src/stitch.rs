use vstd::prelude::*;

use crate::thread::{ActiveThread, Constraint, EmbroideryError, ThreadModel};

verus! {

/// The shared capabilities of every stitch variant.
///
/// `violation_of` decides whether the stitch fits a thread, and which rule it
/// breaks when it does not; `usage` is how much thread a feasible stitch uses.
pub trait Stitch {
    /// The first rule that the stitch breaks on a thread in state `t`, if any.
    spec fn violation_of(&self, t: ThreadModel) -> Option<Constraint>;

    /// The thread length used up by one application of the stitch.
    spec fn usage(&self) -> nat;

    /// The human-readable name of the stitch's style.
    spec fn label(&self) -> Seq<char>;

    /// The label of the stitch's style; reads nothing but the stitch.
    fn display_style(&self) -> (r: &'static str)
        ensures
            r@ == self.label(),
    ;

    /// Finds the first rule that the stitch breaks on `thread`.
    fn violation(&self, thread: &ActiveThread) -> (r: Option<Constraint>)
        ensures
            r == self.violation_of(thread@),
    ;

    /// Uses up the stitch's thread; the stitch must be feasible on `thread`.
    fn update_thread(&self, thread: &mut ActiveThread)
        requires
            self.violation_of(old(thread)@) is None,
        ensures
            self.usage() <= old(thread)@.remaining,
            final(thread)@ == old(thread)@.consumed(self.usage()),
    ;

    /// Whether the stitch can be made on `thread`.
    fn check_possible(&self, thread: &ActiveThread) -> (r: bool)
        ensures
            r == self.violation_of(thread@) is None,
    {
        self.violation(thread).is_none()
    }

    /// Makes the stitch when it is feasible; otherwise reports the rule it
    /// breaks and leaves the thread as it was.
    fn make_stitch(&self, thread: &mut ActiveThread) -> (r: Result<(), EmbroideryError>)
        ensures
            match self.violation_of(old(thread)@) {
                None => r == Ok::<(), EmbroideryError>(())
                    && self.usage() <= old(thread)@.remaining
                    && final(thread)@ == old(thread)@.consumed(self.usage()),
                Some(c) => r == Err::<(), EmbroideryError>(EmbroideryError::ImpossibleStitch(c))
                    && final(thread)@ == old(thread)@,
            },
    {
        match self.violation(thread) {
            None => {
                self.update_thread(thread);
                Ok(())
            },
            Some(c) => Err(EmbroideryError::ImpossibleStitch(c)),
        }
    }
}

/// The look of a linear stitch; it does not change how much thread is used.
#[derive(Debug, Clone, Copy, PartialEq, Eq, Structural)]
pub enum LinearStyle {
    Running,
    Stem,
    Chain,
}

/// A straight stitch from `start_x` to `end_x`, laid in units of `stitch_length`.
/// Positions and lengths are in length units.
#[derive(Debug, Clone, Copy)]
pub struct LinearStitch {
    pub start_x: i32,
    pub end_x: i32,
    pub stitch_length: u32,
    pub style: LinearStyle,
}

impl LinearStitch {
    pub fn new(start_x: i32, end_x: i32, stitch_length: u32, style: LinearStyle) -> (r: LinearStitch)
        ensures
            r.start_x == start_x,
            r.end_x == end_x,
            r.stitch_length == stitch_length,
            r.style == style,
    {
        LinearStitch { start_x, end_x, stitch_length, style }
    }

    /// The span covered by the stitch, negative when it is malformed.
    pub open spec fn distance(self) -> int {
        self.end_x - self.start_x
    }
}

impl Stitch for LinearStitch {
    open spec fn violation_of(&self, t: ThreadModel) -> Option<Constraint> {
        if self.start_x > self.end_x {
            Some(Constraint::MalformedSpan)
        } else if self.distance() > t.remaining {
            Some(Constraint::InsufficientThread)
        } else if self.distance() < self.stitch_length {
            Some(Constraint::GranularityViolation)
        } else {
            None
        }
    }

    open spec fn usage(&self) -> nat {
        self.distance() as nat
    }

    open spec fn label(&self) -> Seq<char> {
        match self.style {
            LinearStyle::Running => "Running Stitch!"@,
            LinearStyle::Stem => "Stem Stitch!"@,
            LinearStyle::Chain => "Chain Stitch!"@,
        }
    }

    fn display_style(&self) -> (r: &'static str) {
        match self.style {
            LinearStyle::Running => "Running Stitch!",
            LinearStyle::Stem => "Stem Stitch!",
            LinearStyle::Chain => "Chain Stitch!",
        }
    }

    fn violation(&self, thread: &ActiveThread) -> (r: Option<Constraint>) {
        if self.start_x > self.end_x {
            return Some(Constraint::MalformedSpan);
        }
        let distance: i64 = self.end_x as i64 - self.start_x as i64;
        if distance > thread.remaining() as i64 {
            Some(Constraint::InsufficientThread)
        } else if distance < self.stitch_length as i64 {
            Some(Constraint::GranularityViolation)
        } else {
            None
        }
    }

    fn update_thread(&self, thread: &mut ActiveThread) {
        let distance: i64 = self.end_x as i64 - self.start_x as i64;
        thread.consume(distance as u32);
    }
}

/// The look of a circular stitch; it does not change how much thread is used.
#[derive(Debug, Clone, Copy, PartialEq, Eq, Structural)]
pub enum CircularStyle {
    French,
    Wheel,
}

/// Numerator of the rational value taken for pi.
pub const PI_NUM: u128 = 355;

/// Denominator of the rational value taken for pi.
pub const PI_DEN: u128 = 113;

/// Length units in one centimetre.
pub const UNITS_PER_CM: u128 = 1000;

/// Divisor that turns a squared radius times `PI_NUM` into length units.
pub const AREA_DEN: u128 = PI_DEN * UNITS_PER_CM;

/// The area of a circle of radius `r` units, in length units, scaled up by `AREA_DEN`.
///
/// A circle of radius `r` units has radius `r / UNITS_PER_CM` cm, so its area
/// read as a length is `r * r * pi / UNITS_PER_CM` units.
pub open spec fn scaled_area(r: nat) -> nat {
    r * r * (PI_NUM as nat)
}

/// The thread, in whole length units, that a circle of radius `r` uses up:
/// its area rounded up.
pub open spec fn area_usage(r: nat) -> nat {
    ((scaled_area(r) + AREA_DEN - 1) / AREA_DEN as int) as nat
}

/// A round stitch (knot or wheel) centred at (`x`, `y`) with the given radius.
/// Positions and lengths are in length units.
#[derive(Debug, Clone, Copy)]
pub struct CircularStitch {
    pub x: i32,
    pub y: i32,
    pub radius: u32,
    pub style: CircularStyle,
}

impl CircularStitch {
    pub fn new(x: i32, y: i32, radius: u32, style: CircularStyle) -> (r: CircularStitch)
        ensures
            r.x == x,
            r.y == y,
            r.radius == radius,
            r.style == style,
    {
        CircularStitch { x, y, radius, style }
    }

    /// Whether `remaining` units strictly exceed the stitch's area.
    pub open spec fn fits(self, remaining: nat) -> bool {
        remaining * AREA_DEN > scaled_area(self.radius as nat)
    }
}

proof fn lemma_usage_fits(r: nat, remaining: nat)
    requires
        remaining * AREA_DEN > scaled_area(r),
    ensures
        area_usage(r) <= remaining,
{
    let a = scaled_area(r) + AREA_DEN - 1;
    assert(a < (remaining + 1) * AREA_DEN) by (nonlinear_arith)
        requires
            a == scaled_area(r) + AREA_DEN - 1,
            remaining * AREA_DEN > scaled_area(r),
    ;
    assert(a / AREA_DEN as int <= remaining) by (nonlinear_arith)
        requires
            a < (remaining + 1) * AREA_DEN,
            a >= 0,
            AREA_DEN > 0,
    ;
}

impl Stitch for CircularStitch {
    open spec fn violation_of(&self, t: ThreadModel) -> Option<Constraint> {
        if self.fits(t.remaining) {
            None
        } else {
            Some(Constraint::InsufficientArea)
        }
    }

    open spec fn usage(&self) -> nat {
        area_usage(self.radius as nat)
    }

    open spec fn label(&self) -> Seq<char> {
        match self.style {
            CircularStyle::French => "French Knot!"@,
            CircularStyle::Wheel => "Woven Wheel!"@,
        }
    }

    fn display_style(&self) -> (r: &'static str) {
        match self.style {
            CircularStyle::French => "French Knot!",
            CircularStyle::Wheel => "Woven Wheel!",
        }
    }

    fn violation(&self, thread: &ActiveThread) -> (r: Option<Constraint>) {
        let r: u128 = self.radius as u128;
        assert(r * r <= 0xffff_ffff * 0xffff_ffff) by (nonlinear_arith)
            requires
                r <= 0xffff_ffff,
        ;
        let area: u128 = r * r * PI_NUM;
        let budget: u128 = thread.remaining() as u128 * AREA_DEN;
        if budget > area {
            None
        } else {
            Some(Constraint::InsufficientArea)
        }
    }

    fn update_thread(&self, thread: &mut ActiveThread) {
        let r: u128 = self.radius as u128;
        assert(r * r <= 0xffff_ffff * 0xffff_ffff) by (nonlinear_arith)
            requires
                r <= 0xffff_ffff,
        ;
        let area: u128 = r * r * PI_NUM;
        let used: u128 = (area + AREA_DEN - 1) / AREA_DEN;
        let remaining: u32 = thread.remaining();
        proof {
            lemma_usage_fits(self.radius as nat, thread@.remaining);
            assert(area == scaled_area(self.radius as nat));
            assert(used == area_usage(self.radius as nat));
        }
        thread.consume(used as u32);
    }
}

} // verus!
