use vstd::prelude::*;

verus! {

/// The most plies that can be bundled into one thread.
pub const MAX_STRANDS: u32 = 6;

/// The rule of a stitch that a thread failed to meet.
#[derive(Debug, Clone, Copy, PartialEq, Eq, Structural)]
pub enum Constraint {
    /// A linear stitch whose start lies after its end.
    MalformedSpan,
    /// A linear stitch longer than the thread that is left.
    InsufficientThread,
    /// A linear stitch shorter than its own stitch length.
    GranularityViolation,
    /// A circular stitch whose area is not strictly less than the thread that is left.
    InsufficientArea,
}

/// Errors reported by the threading factory and by stitch application.
#[derive(Debug, Clone, Copy, PartialEq, Eq, Structural)]
pub enum EmbroideryError {
    /// More strands were requested than a thread can hold.
    InvalidStrandCount,
    /// A stitch was applied to a thread that cannot take it.
    ImpossibleStitch(Constraint),
}

/// The abstract state of a thread; lengths are in length units.
pub struct ThreadModel {
    pub started: bool,
    pub total: nat,
    pub remaining: nat,
    pub strands: nat,
}

impl ThreadModel {
    /// Every thread handed out is started, never has more left than it began
    /// with, and has at most `MAX_STRANDS` plies.
    pub open spec fn wf(self) -> bool {
        &&& self.started
        &&& self.remaining <= self.total
        &&& self.strands <= MAX_STRANDS
    }

    /// The same thread with `amount` more units used up.
    pub open spec fn consumed(self, amount: nat) -> ThreadModel {
        ThreadModel { remaining: (self.remaining - amount) as nat, ..self }
    }
}

/// The embroidery thread currently in use.
///
/// Lengths are counted in length units, thousandths of a centimetre
/// (`crate::stitch::UNITS_PER_CM` to the centimetre).
pub struct ActiveThread {
    started: bool,
    total_len: u32,
    remaining_len: u32,
    strand_number: u32,
}

impl View for ActiveThread {
    type V = ThreadModel;

    closed spec fn view(&self) -> ThreadModel {
        ThreadModel {
            started: self.started,
            total: self.total_len as nat,
            remaining: self.remaining_len as nat,
            strands: self.strand_number as nat,
        }
    }
}

impl ActiveThread {
    #[verifier::type_invariant]
    spec fn inv(&self) -> bool {
        &&& self.started
        &&& self.remaining_len <= self.total_len
        &&& self.strand_number <= MAX_STRANDS
    }

    /// The length still available for stitching.
    pub fn remaining(&self) -> (r: u32)
        ensures
            r == self@.remaining,
            self@.wf(),
    {
        proof {
            use_type_invariant(self);
        }
        self.remaining_len
    }

    /// The length the thread was created with.
    pub fn total(&self) -> (r: u32)
        ensures
            r == self@.total,
            self@.wf(),
    {
        proof {
            use_type_invariant(self);
        }
        self.total_len
    }

    /// The number of plies bundled into the thread.
    pub fn strands(&self) -> (r: u32)
        ensures
            r == self@.strands,
            self@.wf(),
    {
        proof {
            use_type_invariant(self);
        }
        self.strand_number
    }

    /// Whether the needle has been threaded; always so for a thread that exists.
    pub fn started(&self) -> (r: bool)
        ensures
            r == self@.started,
            r,
    {
        proof {
            use_type_invariant(self);
        }
        self.started
    }

    /// Uses up `amount` units of the thread.
    pub(crate) fn consume(&mut self, amount: u32)
        requires
            amount <= old(self)@.remaining,
        ensures
            final(self)@ == old(self)@.consumed(amount as nat),
    {
        proof {
            use_type_invariant(&*self);
        }
        self.remaining_len = self.remaining_len - amount;
    }
}

/// Threads a needle with `length` units of thread made of `strands` plies.
pub fn thread_needle(length: u32, strands: u32) -> (r: Result<ActiveThread, EmbroideryError>)
    ensures
        strands > MAX_STRANDS <==> r is Err,
        r matches Err(e) ==> e == EmbroideryError::InvalidStrandCount,
        r matches Ok(t) ==> t@.wf() && t@ == (ThreadModel {
            started: true,
            total: length as nat,
            remaining: length as nat,
            strands: strands as nat,
        }),
{
    if strands > MAX_STRANDS {
        return Err(EmbroideryError::InvalidStrandCount);
    }
    Ok(ActiveThread { started: true, total_len: length, remaining_len: length, strand_number: strands })
}

} // verus!
