//! Rules of the raw packet path: the read-buffer precondition and the
//! progress of a write that the operating system may accept in parts.
use vstd::prelude::*;

use crate::error::TunError;

verus! {

/// Largest frame the interface carries.
pub const MTU_SIZE: usize = 1500;

/// Checks a read buffer of `len` bytes before any read is issued: it must
/// hold a whole frame.
pub fn check_read_buffer(len: usize) -> (r: Result<(), TunError>)
    ensures
        len < MTU_SIZE ==> r == Err::<(), TunError>(TunError::InvariantViolation),
        len >= MTU_SIZE ==> r is Ok,
{
    if len < MTU_SIZE {
        Err(TunError::InvariantViolation)
    } else {
        Ok(())
    }
}

/// The sum of a sequence of byte counts.
pub open spec fn sum(s: Seq<usize>) -> int
    decreases s.len(),
{
    if s.len() == 0 {
        0
    } else {
        sum(s.drop_last()) + s.last()
    }
}

/// What a write loop does after one write call.
#[derive(Debug, Copy, Clone, PartialEq, Eq, Structural)]
pub enum WriteStep {
    /// Bytes remain: write from `sent()` on.
    Continue,
    /// Every byte has been written.
    Done,
    /// The call wrote nothing while bytes remained.
    Stalled,
    /// The call failed with an error that is not retried.
    Failed,
}

/// Progress of writing `total` bytes through calls that may each accept
/// only a part.
pub struct WriteCursor {
    total: usize,
    sent: usize,
    accepted: Ghost<Seq<usize>>,
}

impl WriteCursor {
    /// Number of bytes to write.
    pub closed spec fn spec_total(&self) -> usize {
        self.total
    }

    /// Number of bytes written so far.
    pub closed spec fn spec_sent(&self) -> usize {
        self.sent
    }

    /// The byte counts of the calls that made progress, in order.
    pub closed spec fn accepted(&self) -> Seq<usize> {
        self.accepted@
    }

    /// The bytes written are those the calls accepted, and never more than
    /// the total.
    pub closed spec fn wf(&self) -> bool {
        &&& self.sent <= self.total
        &&& self.sent == sum(self.accepted@)
    }

    /// Starts writing `total` bytes.
    pub fn new(total: usize) -> (r: WriteCursor)
        ensures
            r.wf(),
            r.spec_total() == total,
            r.spec_sent() == 0,
            r.accepted() == Seq::<usize>::empty(),
    {
        WriteCursor { total, sent: 0, accepted: Ghost(Seq::empty()) }
    }

    /// Number of bytes written so far: the next write starts there.
    pub fn sent(&self) -> (r: usize)
        ensures
            r == self.spec_sent(),
    {
        self.sent
    }

    /// Number of bytes to write.
    pub fn total(&self) -> (r: usize)
        ensures
            r == self.spec_total(),
    {
        self.total
    }

    /// True once every byte has been written.
    pub fn is_done(&self) -> (r: bool)
        ensures
            r == (self.spec_sent() == self.spec_total()),
    {
        self.sent == self.total
    }

    /// Records that one write call accepted `n` more bytes, and says what
    /// to do next.
    pub fn record(&mut self, n: usize) -> (r: WriteStep)
        requires
            old(self).wf(),
            old(self).spec_sent() + n <= old(self).spec_total(),
        ensures
            final(self).wf(),
            final(self).spec_total() == old(self).spec_total(),
            n == 0 ==> *final(self) == *old(self),
            n > 0 ==> final(self).spec_sent() == old(self).spec_sent() + n,
            n > 0 ==> final(self).accepted() == old(self).accepted().push(n),
            r == WriteStep::Done <==> final(self).spec_sent() == final(self).spec_total(),
            r == WriteStep::Stalled <==> (n == 0 && old(self).spec_sent() < old(self).spec_total()),
            r != WriteStep::Failed,
    {
        if n == 0 {
            if self.sent == self.total {
                return WriteStep::Done;
            } else {
                return WriteStep::Stalled;
            }
        }
        proof {
            let s = self.accepted@.push(n);
            assert(s.drop_last() =~= self.accepted@);
        }
        self.sent = self.sent + n;
        self.accepted = Ghost(self.accepted@.push(n));
        if self.sent == self.total {
            WriteStep::Done
        } else {
            WriteStep::Continue
        }
    }

    /// Decides what follows a write call that failed: an interrupted call
    /// is issued again from the same place, any other failure ends the
    /// write.
    pub fn on_error(&self, interrupted: bool) -> (r: WriteStep)
        ensures
            interrupted ==> r == WriteStep::Continue,
            !interrupted ==> r == WriteStep::Failed,
    {
        if interrupted {
            WriteStep::Continue
        } else {
            WriteStep::Failed
        }
    }

    /// A finished write has handed over every byte: the counts the calls
    /// accepted add up to the length of the data.
    pub proof fn lemma_done_sent_all(&self)
        requires
            self.wf(),
            self.spec_sent() == self.spec_total(),
        ensures
            sum(self.accepted()) == self.spec_total(),
    {
    }
}

} // verus!
