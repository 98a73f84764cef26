//! Capture-side decisions.  Device capture itself is an external
//! capability; here live the policies around it: when to start or stop the
//! capture, and the bounded capture-to-encode queue, where a full queue
//! drops the oldest pending block rather than blocking capture.

use vstd::prelude::*;

verus! {

/// What the audio control loop should do this round.
#[derive(Clone, Copy, Debug, PartialEq, Eq, Structural)]
pub enum CaptureCommand {
    /// Begin capturing: streaming is wanted and no capture runs.
    Start,
    /// Tear the capture down: streaming is no longer wanted.
    Stop,
    /// Leave things as they are.
    Keep,
}

/// Decide the capture transition from the desired and the actual state.
pub fn capture_transition(want_stream: bool, capturing: bool) -> (c: CaptureCommand)
    ensures
        c == (if want_stream && !capturing {
            CaptureCommand::Start
        } else if !want_stream && capturing {
            CaptureCommand::Stop
        } else {
            CaptureCommand::Keep
        }),
{
    if want_stream && !capturing {
        CaptureCommand::Start
    } else if !want_stream && capturing {
        CaptureCommand::Stop
    } else {
        CaptureCommand::Keep
    }
}

/// The bounded queue between capture and encode.  Losing a little live
/// audio during a momentary stall is preferable to capture blocking, so a
/// full queue sheds its oldest pending block and counts the loss.
pub struct CaptureQueue {
    /// Most blocks the queue holds at once.
    pub cap: usize,
    /// The pending blocks, oldest first.
    pub blocks: Vec<Vec<i16>>,
    /// How many blocks have been shed so far.
    pub dropped: u64,
}

impl View for CaptureQueue {
    type V = Seq<Seq<i16>>;

    open spec fn view(&self) -> Seq<Seq<i16>> {
        self.blocks@.map_values(|b: Vec<i16>| b@)
    }
}

impl CaptureQueue {
    /// Well-formed: a positive bound that the queue never exceeds.
    pub open spec fn wf(&self) -> bool {
        1 <= self.cap && self@.len() <= self.cap
    }

    /// An empty queue with the given bound.
    pub fn new(cap: usize) -> (q: Self)
        requires
            cap >= 1,
        ensures
            q.wf(),
            q.cap == cap,
            q@ =~= Seq::<Seq<i16>>::empty(),
            q.dropped == 0,
    {
        CaptureQueue { cap, blocks: Vec::new(), dropped: 0 }
    }

    /// Offer a freshly captured block.  A full queue sheds its oldest
    /// pending block first; the new block is always accepted.
    pub fn offer(&mut self, block: Vec<i16>) -> (shed: bool)
        requires
            old(self).wf(),
            old(self).dropped < u64::MAX,
        ensures
            final(self).wf(),
            final(self).cap == old(self).cap,
            shed <==> old(self)@.len() == old(self).cap,
            !shed ==> final(self)@ =~= old(self)@.push(block@) && final(self).dropped
                == old(self).dropped,
            shed ==> final(self)@ =~= old(self)@.drop_first().push(block@)
                && final(self).dropped == old(self).dropped + 1,
    {
        let mut shed = false;
        if self.blocks.len() == self.cap {
            let ghost pre = self@;
            let _oldest = self.blocks.remove(0);
            proof {
                assert(self@ =~= pre.drop_first());
            }
            self.dropped = self.dropped + 1;
            shed = true;
        }
        let ghost mid = self@;
        self.blocks.push(block);
        proof {
            assert(self@ =~= mid.push(block@));
        }
        shed
    }

    /// Take the oldest pending block, if any.
    pub fn poll(&mut self) -> (r: Option<Vec<i16>>)
        requires
            old(self).wf(),
        ensures
            final(self).wf(),
            final(self).cap == old(self).cap,
            final(self).dropped == old(self).dropped,
            old(self)@.len() == 0 ==> r is None && final(self)@ == old(self)@,
            old(self)@.len() > 0 ==> r is Some && r.unwrap()@ == old(self)@.first()
                && final(self)@ =~= old(self)@.drop_first(),
    {
        if self.blocks.len() == 0 {
            return None;
        }
        let ghost pre = self@;
        let b = self.blocks.remove(0);
        proof {
            assert(self@ =~= pre.drop_first());
        }
        Some(b)
    }

    /// How many blocks have been shed so far.
    pub fn dropped_count(&self) -> (n: u64)
        ensures
            n == self.dropped,
    {
        self.dropped
    }
}

} // verus!
