use crate::frame::HostFrame;
use ringbuffer::ConstGenericRingBuffer;
use ringbuffer::RingBuffer;
use vstd::prelude::*;

verus! {

/// The number of frames that a queue holds at most.
pub const QUEUE_DEPTH: usize = 8;

/// The number of frames that a queue takes into one ring buffer before it
/// goes on in a new one.
pub const RENEWAL_PERIOD: usize = 0x1_0000;

/// The ring buffer of `ringbuffer`, of a capacity that its type fixes.
#[verifier::external_type_specification]
#[verifier::external_body]
#[verifier::reject_recursive_types(T)]
pub struct ExConstGenericRingBuffer<T, const CAP: usize>(ConstGenericRingBuffer<T, CAP>);

/// The frames that a ring buffer holds, the oldest first.
pub uninterp spec fn queued(q: ConstGenericRingBuffer<HostFrame, QUEUE_DEPTH>) -> Seq<HostFrame>;

/// The number of frames that a ring buffer has taken since it was made,
/// those that have left it among them: the buffer counts them in a `usize`,
/// without a check.
pub uninterp spec fn queue_writes(q: ConstGenericRingBuffer<HostFrame, QUEUE_DEPTH>) -> nat;

/// What a queue holds once `frame` has been put into it: where the queue
/// was full, its oldest frame has made room.
pub open spec fn pushed(frames: Seq<HostFrame>, frame: HostFrame) -> Seq<HostFrame> {
    if frames.len() < QUEUE_DEPTH {
        frames.push(frame)
    } else {
        frames.skip(1).push(frame)
    }
}

/// Calls `ConstGenericRingBuffer::new`.
///
/// Claimed of it: the new buffer holds nothing and has taken nothing.
#[verifier::external_body]
fn queue_new() -> (q: ConstGenericRingBuffer<HostFrame, QUEUE_DEPTH>)
    ensures
        queued(q) == Seq::<HostFrame>::empty(),
        queue_writes(q) == 0,
{
    ConstGenericRingBuffer::new()
}

/// Calls `RingBuffer::len`.
///
/// Claimed of it: it counts what the buffer holds, which is never more
/// than the capacity.
#[verifier::external_body]
fn queue_len(q: &ConstGenericRingBuffer<HostFrame, QUEUE_DEPTH>) -> (n: usize)
    ensures
        n == queued(*q).len(),
        n <= QUEUE_DEPTH,
{
    q.len()
}

/// Calls `RingBuffer::enqueue` and drops the item that it hands back.
///
/// Claimed of it: the item becomes the newest of the buffer; where the
/// buffer was full, the oldest item leaves it, and the others stay in
/// their order; the buffer has taken one item more. The buffer adds one to
/// its count of writes without a check, so the call is left to buffers
/// whose count is below `usize::MAX`: on those it does not panic.
#[verifier::external_body]
fn queue_enqueue(q: &mut ConstGenericRingBuffer<HostFrame, QUEUE_DEPTH>, frame: HostFrame)
    requires
        queue_writes(*old(q)) < usize::MAX,
    ensures
        queued(*final(q)) == pushed(queued(*old(q)), frame),
        queue_writes(*final(q)) == queue_writes(*old(q)) + 1,
    no_unwind
{
    let _ = q.enqueue(frame);
}

/// Calls `RingBuffer::peek`.
///
/// Claimed of it: it shows the oldest item, if the buffer holds any.
#[verifier::external_body]
fn queue_peek(q: &ConstGenericRingBuffer<HostFrame, QUEUE_DEPTH>) -> (r: Option<&HostFrame>)
    ensures
        r == if queued(*q).len() == 0 {
            None::<&HostFrame>
        } else {
            Some(&queued(*q)[0])
        },
{
    q.peek()
}

/// Calls `RingBuffer::dequeue`.
///
/// Claimed of it: it takes the oldest item out, if the buffer holds any,
/// and leaves the others in their order; the count of writes stays, and
/// the call does not panic.
#[verifier::external_body]
fn queue_dequeue(q: &mut ConstGenericRingBuffer<HostFrame, QUEUE_DEPTH>) -> (r: Option<HostFrame>)
    ensures
        r == if queued(*old(q)).len() == 0 {
            None::<HostFrame>
        } else {
            Some(queued(*old(q))[0])
        },
        queued(*final(q)) == if queued(*old(q)).len() == 0 {
            queued(*old(q))
        } else {
            queued(*old(q)).skip(1)
        },
        queue_writes(*final(q)) == queue_writes(*old(q)),
    no_unwind
{
    q.dequeue()
}

/// A queue of at most [`QUEUE_DEPTH`] frames, which lets its oldest frame
/// go when it is full and takes another.
///
/// The frames lie in a ring buffer. Before the ring buffer's count of
/// writes can leave the range of `usize`, the queue moves its frames into a
/// new ring buffer: so a queue takes any number of frames.
pub struct FrameQueue {
    ring: ConstGenericRingBuffer<HostFrame, QUEUE_DEPTH>,
    writes: usize,
}

impl View for FrameQueue {
    type V = Seq<HostFrame>;

    /// The frames that the queue holds, the oldest first.
    closed spec fn view(&self) -> Seq<HostFrame> {
        queued(self.ring)
    }
}

impl FrameQueue {
    #[verifier::type_invariant]
    spec fn well_formed(&self) -> bool {
        queue_writes(self.ring) <= self.writes
    }

    /// A queue that holds nothing.
    pub fn new() -> (r: FrameQueue)
        ensures
            r@ == Seq::<HostFrame>::empty(),
    {
        FrameQueue { ring: queue_new(), writes: 0 }
    }

    /// The number of frames that the queue holds.
    pub fn len(&self) -> (n: usize)
        ensures
            n == self@.len(),
            n <= QUEUE_DEPTH,
    {
        queue_len(&self.ring)
    }

    /// The oldest frame, if the queue holds any.
    pub fn peek(&self) -> (r: Option<&HostFrame>)
        ensures
            r == if self@.len() == 0 {
                None::<&HostFrame>
            } else {
                Some(&self@[0])
            },
    {
        queue_peek(&self.ring)
    }

    /// Puts `frame` into the queue as its newest frame. Where the queue is
    /// full, its oldest frame makes room.
    pub fn push(&mut self, frame: HostFrame)
        ensures
            final(self)@ == pushed(old(self)@, frame),
    {
        if self.writes >= RENEWAL_PERIOD {
            self.renew();
        }
        proof {
            use_type_invariant(&*self);
        }
        self.writes = self.writes + 1;
        queue_enqueue(&mut self.ring, frame);
    }

    /// Takes the oldest frame out of the queue, if it holds any.
    pub fn pop(&mut self) -> (r: Option<HostFrame>)
        ensures
            r == if old(self)@.len() == 0 {
                None::<HostFrame>
            } else {
                Some(old(self)@[0])
            },
            final(self)@ == if old(self)@.len() == 0 {
                old(self)@
            } else {
                old(self)@.skip(1)
            },
    {
        proof {
            use_type_invariant(&*self);
        }
        queue_dequeue(&mut self.ring)
    }

    /// Moves the frames into a new ring buffer, in their order.
    fn renew(&mut self)
        requires
            old(self).writes >= QUEUE_DEPTH,
        ensures
            final(self)@ == old(self)@,
            final(self).writes <= QUEUE_DEPTH,
    {
        proof {
            use_type_invariant(&*self);
        }
        let mut fresh = queue_new();
        let held: usize = queue_len(&self.ring);
        let mut moved: usize = 0;
        while moved < held
            invariant
                moved <= held <= QUEUE_DEPTH,
                queued(fresh) + queued(self.ring) == old(self)@,
                queued(fresh).len() == moved,
                queued(self.ring).len() == held - moved,
                queue_writes(fresh) == moved,
                queue_writes(self.ring) <= self.writes,
                self.writes == old(self).writes,
            decreases held - moved,
        {
            if let Some(frame) = queue_dequeue(&mut self.ring) {
                queue_enqueue(&mut fresh, frame);
            }
            moved = moved + 1;
        }
        self.ring = fresh;
        self.writes = held;
    }
}

} // verus!
