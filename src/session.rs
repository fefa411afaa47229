use vstd::prelude::*;

use crate::stitch::{CircularStitch, CircularStyle, LinearStitch, LinearStyle, Stitch};
use crate::thread::{thread_needle, ActiveThread, Constraint, EmbroideryError};

verus! {

/// The outcome of the sample session: the thread left after each stitch that
/// was applied, and the result of each stitch, in order.
pub struct SessionReport {
    pub remaining_after: Vec<u32>,
    pub outcomes: Vec<Result<(), EmbroideryError>>,
}

/// Threads 40 cm of four-strand thread and applies, in order, a running stitch
/// from 1 cm to 7 cm, a stem stitch from 8 cm to 23 cm (both with a 2 cm stitch
/// length) and a woven wheel of radius 5 cm centred at (1 cm, 10 cm).
///
/// The two linear stitches leave 34 cm and then 19 cm; the wheel's area of
/// about 78.54 cm does not fit in 19 cm, so it is refused and the thread keeps
/// its 19 cm.
pub fn sample_session() -> (r: SessionReport)
    ensures
        r.remaining_after@ == seq![40_000u32, 34_000, 19_000, 19_000],
        r.outcomes@ == seq![
            Ok::<(), EmbroideryError>(()),
            Ok(()),
            Err(EmbroideryError::ImpossibleStitch(Constraint::InsufficientArea)),
        ],
{
    let mut remaining_after: Vec<u32> = Vec::new();
    let mut outcomes: Vec<Result<(), EmbroideryError>> = Vec::new();
    let threaded = thread_needle(40_000, 4);
    let mut thread: ActiveThread = match threaded {
        Ok(t) => t,
        Err(_) => {
            return SessionReport { remaining_after, outcomes };
        },
    };
    remaining_after.push(thread.remaining());

    let stitch_1 = LinearStitch::new(1_000, 7_000, 2_000, LinearStyle::Running);
    let stitch_2 = LinearStitch::new(8_000, 23_000, 2_000, LinearStyle::Stem);
    let stitch_3 = CircularStitch::new(1_000, 10_000, 5_000, CircularStyle::Wheel);

    outcomes.push(stitch_1.make_stitch(&mut thread));
    remaining_after.push(thread.remaining());
    outcomes.push(stitch_2.make_stitch(&mut thread));
    remaining_after.push(thread.remaining());
    outcomes.push(stitch_3.make_stitch(&mut thread));
    remaining_after.push(thread.remaining());
    SessionReport { remaining_after, outcomes }
}

} // verus!
