//! The lossy fan-out between the shell and the transport.
//!
//! The shell side publishes frames; each broker connection subscribes and
//! polls. The fan-out keeps at most `capacity` frames. When it is full, the
//! oldest frame is dropped to make room: the producer never waits. A
//! subscriber sees only frames published after it subscribed, in order. A
//! subscriber that falls behind so far that its next frame was dropped is
//! ended rather than served with a gap, so what one subscription delivers is
//! always one unbroken run of what was published.

use std::collections::VecDeque;
use vstd::prelude::*;
use vstd::seq_lib::lemma_flatten_concat;
use vstd::slice::slice_to_vec;

verus! {

/// Frames kept for shell output.
pub const OUTPUT_CAPACITY: usize = 1000;

/// Frames kept for status tokens.
pub const STATUS_CAPACITY: usize = 10;

/// What a poll hands to a subscriber.
#[derive(Debug, PartialEq, Eq)]
pub enum Delivery {
    /// The next frame, in publication order.
    Frame(Vec<u8>),
    /// Nothing new yet; the subscription stays open.
    Pending,
    /// The subscription is over: it fell behind the retained frames, or the
    /// fan-out was closed and everything was delivered.
    Ended,
}

/// A bounded broadcast buffer with a drop-oldest overflow policy.
pub struct FanOut {
    capacity: usize,
    buffer: VecDeque<Vec<u8>>,
    total: u64,
    closed: bool,
    history: Ghost<Seq<Seq<u8>>>,
}

/// One consumer's place in a fan-out.
pub struct Subscription {
    next: u64,
    ended: bool,
    origin: Ghost<nat>,
    delivered: Ghost<Seq<Seq<u8>>>,
}

/// How many of `published` frames a fan-out of the given capacity retains.
pub open spec fn retained_count(published: nat, capacity: nat) -> nat {
    if published < capacity {
        published
    } else {
        capacity
    }
}

/// The bytes of a run of frames, one after the other.
pub open spec fn stream(frames: Seq<Seq<u8>>) -> Seq<u8> {
    frames.flatten()
}

impl Subscription {
    /// The index, among all frames ever published, of the frame that this
    /// subscription receives next.
    pub closed spec fn position(self) -> nat {
        self.next as nat
    }

    /// The position at which this subscription started.
    pub closed spec fn origin(self) -> nat {
        self.origin@
    }

    /// The frames handed to this subscription so far, in order.
    pub closed spec fn delivered(self) -> Seq<Seq<u8>> {
        self.delivered@
    }

    /// Whether the subscription is over.
    pub closed spec fn ended(self) -> bool {
        self.ended
    }

    /// The subscription has received exactly the frames of `fan` from its
    /// origin up to its position.
    pub open spec fn in_step(self, fan: FanOut) -> bool {
        &&& self.origin() <= self.position() <= fan.history().len()
        &&& self.delivered() == fan.history().subrange(
            self.origin() as int,
            self.position() as int,
        )
    }

    /// Whether the subscription is over.
    pub fn has_ended(&self) -> (over: bool)
        ensures
            over == self.ended(),
    {
        self.ended
    }

    /// Ends the subscription from the consumer's side. What it has
    /// received stays as it is.
    pub fn cancel(&mut self)
        ensures
            final(self).ended(),
            final(self).position() == old(self).position(),
            final(self).origin() == old(self).origin(),
            final(self).delivered() == old(self).delivered(),
    {
        self.ended = true;
    }
}

impl FanOut {
    /// The buffer holds the newest frames of the history, and no more than
    /// the capacity.
    pub closed spec fn wf(self) -> bool {
        &&& self.capacity >= 1
        &&& self.total as nat == self.history@.len()
        &&& self.buffer@.len() == retained_count(self.history@.len(), self.capacity as nat)
        &&& forall|i: int|
            0 <= i < self.buffer@.len() ==> (#[trigger] self.buffer@[i])@ == self.history@[
                self.history@.len() - self.buffer@.len() + i]
    }

    /// Every frame ever published, oldest first.
    pub closed spec fn history(self) -> Seq<Seq<u8>> {
        self.history@
    }

    /// The most frames that are retained at one time.
    pub closed spec fn limit(self) -> nat {
        self.capacity as nat
    }

    /// Whether the producer has closed the fan-out.
    pub closed spec fn shut(self) -> bool {
        self.closed
    }

    /// The index of the oldest frame that is still retained.
    pub open spec fn oldest(self) -> nat {
        (self.history().len() - retained_count(self.history().len(), self.limit())) as nat
    }

    /// The frames that are still retained, oldest first.
    pub open spec fn retained(self) -> Seq<Seq<u8>> {
        self.history().subrange(self.oldest() as int, self.history().len() as int)
    }

    /// An empty fan-out that retains up to `capacity` frames. A capacity of
    /// zero is raised to one.
    pub fn new(capacity: usize) -> (fan: FanOut)
        ensures
            fan.wf(),
            fan.history() == Seq::<Seq<u8>>::empty(),
            fan.limit() == if capacity == 0 { 1 } else { capacity as nat },
            !fan.shut(),
    {
        let capacity: usize = if capacity == 0 { 1 } else { capacity };
        FanOut {
            capacity,
            buffer: VecDeque::new(),
            total: 0,
            closed: false,
            history: Ghost(Seq::empty()),
        }
    }

    /// The most frames that are retained at one time.
    pub fn capacity(&self) -> (n: usize)
        ensures
            n == self.limit(),
    {
        self.capacity
    }

    /// How many frames were published so far.
    pub fn published(&self) -> (n: u64)
        requires
            self.wf(),
        ensures
            n == self.history().len(),
    {
        self.total
    }

    /// How many frames are retained now.
    pub fn len(&self) -> (n: usize)
        requires
            self.wf(),
        ensures
            n == self.retained().len(),
            n == retained_count(self.history().len(), self.limit()),
    {
        self.buffer.len()
    }

    /// Whether the producer has closed the fan-out.
    pub fn is_closed(&self) -> (shut: bool)
        ensures
            shut == self.shut(),
    {
        self.closed
    }

    /// Publishes a frame. If the fan-out is full, the oldest retained frame
    /// is dropped first; the call never waits for a consumer.
    pub fn publish(&mut self, frame: Vec<u8>)
        requires
            old(self).wf(),
            old(self).history().len() < u64::MAX,
        ensures
            final(self).wf(),
            final(self).history() == old(self).history().push(frame@),
            final(self).limit() == old(self).limit(),
            final(self).shut() == old(self).shut(),
    {
        if self.buffer.len() == self.capacity {
            let _ = self.buffer.pop_front();
        }
        self.buffer.push_back(frame);
        self.total = self.total + 1;
        proof {
            self.history@ = self.history@.push(frame@);
        }
    }

    /// Closes the fan-out: subscribers receive what is retained and are then
    /// ended.
    pub fn close(&mut self)
        requires
            old(self).wf(),
        ensures
            final(self).wf(),
            final(self).shut(),
            final(self).history() == old(self).history(),
            final(self).limit() == old(self).limit(),
    {
        self.closed = true;
    }

    /// Opens a subscription that starts with the next frame to be
    /// published: nothing published before is delivered to it.
    pub fn subscribe(&self) -> (sub: Subscription)
        requires
            self.wf(),
        ensures
            sub.position() == self.history().len(),
            sub.origin() == self.history().len(),
            sub.delivered() == Seq::<Seq<u8>>::empty(),
            !sub.ended(),
            sub.in_step(*self),
    {
        let sub = Subscription {
            next: self.total,
            ended: false,
            origin: Ghost(self.history@.len()),
            delivered: Ghost(Seq::empty()),
        };
        assert(sub.delivered@ =~= self.history@.subrange(
            self.history@.len() as int,
            self.history@.len() as int,
        ));
        sub
    }

    /// The frame at the subscription's position is retained.
    pub open spec fn available(self, sub: Subscription) -> bool {
        !sub.ended() && self.oldest() <= sub.position() < self.history().len()
    }

    /// The subscription is, or now becomes, over.
    pub open spec fn finished(self, sub: Subscription) -> bool {
        ||| sub.ended()
        ||| sub.position() < self.oldest()
        ||| (sub.position() >= self.history().len() && self.shut())
    }

    /// Hands the subscription its next frame, if there is one.
    pub fn poll(&self, sub: &mut Subscription) -> (delivery: Delivery)
        requires
            self.wf(),
        ensures
            final(sub).origin() == old(sub).origin(),
            final(sub).ended() == self.finished(*old(sub)),
            match delivery {
                Delivery::Frame(frame) => {
                    &&& self.available(*old(sub))
                    &&& frame@ == self.history()[old(sub).position() as int]
                    &&& final(sub).position() == old(sub).position() + 1
                    &&& final(sub).delivered() == old(sub).delivered().push(frame@)
                },
                Delivery::Pending => {
                    &&& !self.available(*old(sub))
                    &&& !self.finished(*old(sub))
                    &&& final(sub).position() == old(sub).position()
                    &&& final(sub).delivered() == old(sub).delivered()
                },
                Delivery::Ended => {
                    &&& self.finished(*old(sub))
                    &&& final(sub).position() == old(sub).position()
                    &&& final(sub).delivered() == old(sub).delivered()
                },
            },
            old(sub).in_step(*self) ==> final(sub).in_step(*self),
    {
        if sub.ended {
            return Delivery::Ended;
        }
        let retained: u64 = self.buffer.len() as u64;
        let oldest: u64 = self.total - retained;
        if sub.next < oldest {
            sub.ended = true;
            return Delivery::Ended;
        }
        if sub.next < self.total {
            let index: usize = (sub.next - oldest) as usize;
            let frame = slice_to_vec(self.buffer[index].as_slice());
            proof {
                if sub.in_step(*self) {
                    assert(self.history@.subrange(sub.origin@ as int, sub.next as int).push(frame@)
                        =~= self.history@.subrange(sub.origin@ as int, sub.next as int + 1));
                }
                sub.delivered@ = sub.delivered@.push(frame@);
            }
            sub.next = sub.next + 1;
            return Delivery::Frame(frame);
        }
        if self.closed {
            sub.ended = true;
            return Delivery::Ended;
        }
        Delivery::Pending
    }
}

/// How many bytes the first `count` frames hold.
pub open spec fn offset_of(frames: Seq<Seq<u8>>, count: int) -> int {
    stream(frames.take(count)).len() as int
}

/// Publishing never disturbs a subscription: what it has received is still
/// the same run of the longer history.
pub proof fn lemma_publish_keeps_step(before: FanOut, after: FanOut, sub: Subscription, frame: Seq<u8>)
    requires
        sub.in_step(before),
        after.history() == before.history().push(frame),
    ensures
        sub.in_step(after),
{
    assert(after.history().subrange(sub.origin() as int, sub.position() as int)
        =~= before.history().subrange(sub.origin() as int, sub.position() as int));
}

/// The bytes of a run of frames are a contiguous range of the bytes of all
/// frames: nothing is reordered, repeated or left out inside the run.
pub proof fn lemma_run_is_contiguous(frames: Seq<Seq<u8>>, from: int, to: int)
    requires
        0 <= from <= to <= frames.len(),
    ensures
        0 <= offset_of(frames, from) <= offset_of(frames, to) <= stream(frames).len(),
        stream(frames.subrange(from, to)) == stream(frames).subrange(
            offset_of(frames, from),
            offset_of(frames, to),
        ),
{
    let head = frames.take(from);
    let run = frames.subrange(from, to);
    let tail = frames.skip(to);
    assert(frames.take(to) =~= head + run);
    assert(frames =~= frames.take(to) + tail);
    lemma_flatten_concat(head, run);
    lemma_flatten_concat(frames.take(to), tail);
    assert(stream(run) =~= stream(frames).subrange(
        offset_of(frames, from),
        offset_of(frames, to),
    ));
}

/// What a subscription has delivered is an order-preserving, contiguous
/// part of everything that was published: frame by frame, and so also byte
/// by byte.
pub proof fn lemma_delivery_in_order(fan: FanOut, sub: Subscription)
    requires
        sub.in_step(fan),
    ensures
        sub.position() == sub.origin() + sub.delivered().len(),
        forall|k: int|
            0 <= k < sub.delivered().len() ==> sub.delivered()[k] == fan.history()[sub.origin()
                + k],
        stream(sub.delivered()) == stream(fan.history()).subrange(
            offset_of(fan.history(), sub.origin() as int),
            offset_of(fan.history(), sub.position() as int),
        ),
{
    lemma_run_is_contiguous(fan.history(), sub.origin() as int, sub.position() as int);
}

/// A full fan-out drops exactly its oldest frame when one more is
/// published, and a fan-out that is not full drops nothing.
pub proof fn lemma_drop_oldest(before: FanOut, after: FanOut, frame: Seq<u8>)
    requires
        after.history() == before.history().push(frame),
        after.limit() == before.limit(),
        before.limit() >= 1,
    ensures
        before.retained().len() < before.limit() ==> after.retained() == before.retained().push(
            frame,
        ),
        before.retained().len() == before.limit() ==> after.retained()
            == before.retained().drop_first().push(frame),
        after.retained().len() <= after.limit(),
{
    if before.retained().len() < before.limit() {
        assert(after.retained() =~= before.retained().push(frame));
    } else {
        assert(after.retained() =~= before.retained().drop_first().push(frame));
    }
}

} // verus!
