use vstd::prelude::*;

use crate::stitch::{scaled_area, CircularStitch, LinearStitch, Stitch, AREA_DEN};
use crate::thread::{Constraint, ThreadModel};

verus! {

/// A linear stitch whose start lies after its end is never feasible, whatever
/// the thread and the stitch length.
pub proof fn lemma_reversed_span_infeasible(s: LinearStitch, t: ThreadModel)
    requires
        s.start_x > s.end_x,
    ensures
        s.violation_of(t) == Some(Constraint::MalformedSpan),
{
}

/// A linear stitch spanning less than its own stitch length is never feasible,
/// however much thread is left.
pub proof fn lemma_short_span_infeasible(s: LinearStitch, t: ThreadModel)
    requires
        s.end_x - s.start_x < s.stitch_length,
    ensures
        s.violation_of(t) is Some,
        s.start_x <= s.end_x && s.end_x - s.start_x <= t.remaining ==> s.violation_of(t) == Some(
            Constraint::GranularityViolation,
        ),
{
}

/// A feasible linear stitch uses up exactly the span from its start to its
/// end; the stitch length plays no part in it.
pub proof fn lemma_linear_usage_is_span(s: LinearStitch, t: ThreadModel)
    requires
        s.violation_of(t) is None,
    ensures
        s.usage() == s.end_x - s.start_x,
        s.usage() <= t.remaining,
{
}

/// A circular stitch is feasible exactly when the thread left strictly
/// exceeds its area: a thread whose length equals the area is refused.
pub proof fn lemma_circular_strict(c: CircularStitch, t: ThreadModel)
    ensures
        t.remaining * AREA_DEN == scaled_area(c.radius as nat) ==> c.violation_of(t) == Some(
            Constraint::InsufficientArea,
        ),
        t.remaining * AREA_DEN > scaled_area(c.radius as nat) ==> c.violation_of(t) is None,
        c.violation_of(t) is None <==> t.remaining * AREA_DEN > scaled_area(c.radius as nat),
{
}

} // verus!
