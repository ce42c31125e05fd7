//! The queue between capture and conversion: one producer, one consumer,
//! frames leave in the order in which they came.
//!
//! The queue itself never waits. Where the consumer finds it empty and still
//! open, it is for the caller to wait until the producer has sent or closed.

use std::collections::VecDeque;
use vstd::prelude::*;

verus! {

/// What a channel does with a frame that arrives while it is full.
#[derive(Clone, Copy, Debug, PartialEq, Eq, Structural)]
pub enum Backpressure {
    /// The channel is never full: it grows as long as the consumer lags.
    Unbounded,
    /// At most this many frames wait; the oldest gives way to a new one.
    DropOldest(usize),
    /// At most this many frames wait; a new one is turned away.
    DropNewest(usize),
}

/// What became of a frame that was sent.
#[derive(Debug)]
pub enum SendOutcome<T> {
    /// The frame waits at the back of the queue.
    Queued,
    /// The frame waits at the back of the queue, and the oldest frame, which
    /// is handed back, left to make room for it.
    Displaced(T),
    /// The queue was full and the frame, which is handed back, was turned away.
    Rejected(T),
    /// The channel was closed and the frame is handed back.
    Closed(T),
}

/// What the consumer gets when it asks for a frame.
#[derive(Debug)]
pub enum RecvOutcome<T> {
    /// The oldest frame that waited.
    Frame(T),
    /// No frame waits, and the producer may still send one.
    Empty,
    /// No frame waits, and none will come: the stream has ended.
    EndOfStream,
}

impl Backpressure {
    /// Whether a queue of `queued` frames takes one more without a loss.
    pub open spec fn has_room(self, queued: nat) -> bool {
        match self {
            Backpressure::Unbounded => true,
            Backpressure::DropOldest(capacity) => queued < capacity,
            Backpressure::DropNewest(capacity) => queued < capacity,
        }
    }

    /// Whether no more than the allowed number of frames wait.
    pub open spec fn admits(self, queued: nat) -> bool {
        match self {
            Backpressure::Unbounded => true,
            Backpressure::DropOldest(capacity) => queued <= capacity,
            Backpressure::DropNewest(capacity) => queued <= capacity,
        }
    }

    /// Whether the oldest frame gives way when `queued` frames wait and one
    /// more arrives.
    pub open spec fn displaces(self, queued: nat) -> bool {
        self is DropOldest && !self.has_room(queued) && queued > 0
    }
}

/// The frames that wait after `frame` was sent to an open channel in which
/// `queued` waited.
pub open spec fn after_send<T>(policy: Backpressure, queued: Seq<T>, frame: T) -> Seq<T> {
    if policy.has_room(queued.len()) {
        queued.push(frame)
    } else if policy.displaces(queued.len()) {
        queued.drop_first().push(frame)
    } else {
        queued
    }
}

/// The frames that wait after each frame of `frames` was sent in turn.
pub open spec fn after_sends<T>(policy: Backpressure, queued: Seq<T>, frames: Seq<T>) -> Seq<T>
    decreases frames.len(),
{
    if frames.len() == 0 {
        queued
    } else {
        after_send(policy, after_sends(policy, queued, frames.drop_last()), frames.last())
    }
}

/// The frames that the consumer gets from `queued` in `count` requests.
pub open spec fn received<T>(queued: Seq<T>, count: nat) -> Seq<T>
    decreases count,
{
    if count == 0 || queued.len() == 0 {
        Seq::empty()
    } else {
        seq![queued[0]] + received(queued.drop_first(), (count - 1) as nat)
    }
}

/// The frames that the producer handed over in `steps`. A step is a frame
/// that the producer sends, or `None` where the consumer asks for a frame.
pub open spec fn sent_in<T>(steps: Seq<Option<T>>) -> Seq<T>
    decreases steps.len(),
{
    if steps.len() == 0 {
        Seq::empty()
    } else {
        match steps.last() {
            Some(frame) => sent_in(steps.drop_last()).push(frame),
            None => sent_in(steps.drop_last()),
        }
    }
}

/// The frames that wait after `steps` were taken on an open channel in which
/// `queued` waited, in whatever way the two threads took turns.
pub open spec fn waiting_after<T>(
    policy: Backpressure,
    queued: Seq<T>,
    steps: Seq<Option<T>>,
) -> Seq<T>
    decreases steps.len(),
{
    if steps.len() == 0 {
        queued
    } else {
        let before = waiting_after(policy, queued, steps.drop_last());
        match steps.last() {
            Some(frame) => after_send(policy, before, frame),
            None => if before.len() > 0 {
                before.drop_first()
            } else {
                before
            },
        }
    }
}

/// The frames that the consumer got in `steps`, in the order in which it got
/// them.
pub open spec fn received_in<T>(
    policy: Backpressure,
    queued: Seq<T>,
    steps: Seq<Option<T>>,
) -> Seq<T>
    decreases steps.len(),
{
    if steps.len() == 0 {
        Seq::empty()
    } else {
        let before = waiting_after(policy, queued, steps.drop_last());
        let got = received_in(policy, queued, steps.drop_last());
        if steps.last() is None && before.len() > 0 {
            got.push(before[0])
        } else {
            got
        }
    }
}

/// An ordered queue of frames between one producer and one consumer.
pub struct FrameChannel<T> {
    frames: VecDeque<T>,
    policy: Backpressure,
    closed: bool,
}

impl<T> View for FrameChannel<T> {
    type V = Seq<T>;

    /// The frames that wait, the oldest first.
    closed spec fn view(&self) -> Seq<T> {
        self.frames@
    }
}

impl<T> FrameChannel<T> {
    /// What the channel does when it is full.
    pub closed spec fn policy(&self) -> Backpressure {
        self.policy
    }

    /// Whether the producer has closed the channel.
    pub closed spec fn closed(&self) -> bool {
        self.closed
    }

    /// No more frames wait than the policy allows. A new channel is so, and
    /// no operation ends it.
    pub open spec fn wf(&self) -> bool {
        self.policy().admits(self@.len())
    }

    /// An open, empty channel.
    pub fn new(policy: Backpressure) -> (channel: FrameChannel<T>)
        ensures
            channel.wf(),
            channel@ == Seq::<T>::empty(),
            channel.policy() == policy,
            !channel.closed(),
    {
        FrameChannel { frames: VecDeque::new(), policy, closed: false }
    }

    /// The number of frames that wait.
    pub fn len(&self) -> (n: usize)
        ensures
            n == self@.len(),
    {
        self.frames.len()
    }

    /// Whether no frame waits.
    pub fn is_empty(&self) -> (empty: bool)
        ensures
            empty == (self@.len() == 0),
    {
        self.frames.len() == 0
    }

    /// Whether the producer has closed the channel.
    pub fn is_closed(&self) -> (closed: bool)
        ensures
            closed == self.closed(),
    {
        self.closed
    }

    /// What the channel does when it is full.
    pub fn backpressure(&self) -> (policy: Backpressure)
        ensures
            policy == self.policy(),
    {
        self.policy
    }

    /// Puts a frame at the back of the queue.
    ///
    /// A closed channel hands the frame back. A full one loses its oldest
    /// frame or turns the new one away, as its policy says.
    pub fn send(&mut self, frame: T) -> (outcome: SendOutcome<T>)
        ensures
            old(self).wf() ==> final(self).wf(),
            final(self).policy() == old(self).policy(),
            final(self).closed() == old(self).closed(),
            old(self).closed() ==> final(self)@ == old(self)@ && outcome == SendOutcome::Closed(
                frame,
            ),
            !old(self).closed() ==> final(self)@ == after_send(
                old(self).policy(),
                old(self)@,
                frame,
            ),
            !old(self).closed() && old(self).policy().has_room(old(self)@.len()) ==> outcome
                == SendOutcome::<T>::Queued,
            !old(self).closed() && old(self).policy().displaces(old(self)@.len()) ==> outcome
                == SendOutcome::Displaced(old(self)@[0]),
            !old(self).closed() && !old(self).policy().has_room(old(self)@.len()) && !old(
                self,
            ).policy().displaces(old(self)@.len()) ==> outcome == SendOutcome::Rejected(frame),
    {
        if self.closed {
            return SendOutcome::Closed(frame);
        }
        let queued: usize = self.frames.len();
        match self.policy {
            Backpressure::Unbounded => {
                self.frames.push_back(frame);
                SendOutcome::Queued
            },
            Backpressure::DropNewest(capacity) => {
                if queued < capacity {
                    self.frames.push_back(frame);
                    SendOutcome::Queued
                } else {
                    SendOutcome::Rejected(frame)
                }
            },
            Backpressure::DropOldest(capacity) => {
                if queued < capacity {
                    self.frames.push_back(frame);
                    SendOutcome::Queued
                } else {
                    match self.frames.pop_front() {
                        Some(oldest) => {
                            self.frames.push_back(frame);
                            assert(final(self)@ =~= old(self)@.drop_first().push(frame));
                            SendOutcome::Displaced(oldest)
                        },
                        None => SendOutcome::Rejected(frame),
                    }
                }
            },
        }
    }

    /// Takes the oldest frame from the queue.
    ///
    /// Frames that were sent before the channel was closed are still handed
    /// out after it; the end of the stream is reported once none is left.
    pub fn recv(&mut self) -> (outcome: RecvOutcome<T>)
        ensures
            old(self).wf() ==> final(self).wf(),
            final(self).policy() == old(self).policy(),
            final(self).closed() == old(self).closed(),
            old(self)@.len() > 0 ==> outcome == RecvOutcome::Frame(old(self)@[0]) && final(self)@
                == old(self)@.drop_first(),
            old(self)@.len() == 0 ==> final(self)@ == old(self)@,
            old(self)@.len() == 0 && old(self).closed() ==> outcome
                == RecvOutcome::<T>::EndOfStream,
            old(self)@.len() == 0 && !old(self).closed() ==> outcome == RecvOutcome::<T>::Empty,
    {
        match self.frames.pop_front() {
            Some(frame) => {
                assert(final(self)@ =~= old(self)@.drop_first());
                RecvOutcome::Frame(frame)
            },
            None => {
                if self.closed {
                    RecvOutcome::EndOfStream
                } else {
                    RecvOutcome::Empty
                }
            },
        }
    }

    /// Closes the channel: no frame is taken in from now on. Closing a closed
    /// channel changes nothing.
    pub fn close(&mut self)
        ensures
            final(self).closed(),
            final(self)@ == old(self)@,
            final(self).policy() == old(self).policy(),
            old(self).wf() ==> final(self).wf(),
    {
        self.closed = true;
    }
}

/// A send never breaks the bound of the policy.
pub proof fn lemma_send_keeps_bound<T>(policy: Backpressure, queued: Seq<T>, frame: T)
    requires
        policy.admits(queued.len()),
    ensures
        policy.admits(after_send(policy, queued, frame).len()),
{
}

/// A send never reorders: whatever the policy, the frames that wait after it
/// are those that waited, followed by the new one, without the first or
/// without the last where one had to go.
pub proof fn lemma_send_keeps_order<T>(policy: Backpressure, queued: Seq<T>, frame: T)
    ensures
        ({
            let all = queued.push(frame);
            let kept = after_send(policy, queued, frame);
            let start: int = if policy.displaces(queued.len()) {
                1
            } else {
                0
            };
            &&& start + kept.len() <= all.len()
            &&& kept == all.subrange(start, start + kept.len())
        }),
{
    let all = queued.push(frame);
    let kept = after_send(policy, queued, frame);
    let start: int = if policy.displaces(queued.len()) {
        1
    } else {
        0
    };
    assert(kept =~= all.subrange(start, start + kept.len()));
}

/// A channel without a bound keeps every frame, behind those that waited
/// and in the order in which they were sent.
pub proof fn lemma_unbounded_keeps_every_frame<T>(queued: Seq<T>, frames: Seq<T>)
    ensures
        after_sends(Backpressure::Unbounded, queued, frames) == queued + frames,
    decreases frames.len(),
{
    if frames.len() == 0 {
        assert(queued + frames =~= queued);
    } else {
        lemma_unbounded_keeps_every_frame(queued, frames.drop_last());
        assert((queued + frames.drop_last()).push(frames.last()) =~= queued + frames);
    }
}

/// The consumer gets the frames that wait from the oldest on, as many as it
/// asks for and no more than there are.
pub proof fn lemma_received_is_prefix<T>(queued: Seq<T>, count: nat)
    ensures
        received(queued, count) == queued.take(
            if count <= queued.len() {
                count as int
            } else {
                queued.len() as int
            },
        ),
    decreases count,
{
    let n: int = if count <= queued.len() {
        count as int
    } else {
        queued.len() as int
    };
    if count == 0 || queued.len() == 0 {
        assert(received(queued, count) =~= queued.take(n));
    } else {
        lemma_received_is_prefix(queued.drop_first(), (count - 1) as nat);
        assert(seq![queued[0]] + queued.drop_first().take(n - 1) =~= queued.take(n));
    }
}

/// Frames leave the channel in the order in which they were captured: what
/// the producer sends to an empty channel without a bound is what the
/// consumer gets, frame for frame.
pub proof fn lemma_frames_leave_in_capture_order<T>(frames: Seq<T>)
    ensures
        received(after_sends(Backpressure::Unbounded, Seq::<T>::empty(), frames), frames.len())
            == frames,
{
    lemma_unbounded_keeps_every_frame(Seq::<T>::empty(), frames);
    assert(Seq::<T>::empty() + frames =~= frames);
    lemma_received_is_prefix(frames, frames.len());
    assert(frames.take(frames.len() as int) =~= frames);
}

/// However the producer and the consumer take turns on a channel without a
/// bound, nothing is lost and nothing is reordered: the frames that the
/// consumer got, followed by those that still wait, are the frames that the
/// producer sent, in the order in which it sent them.
pub proof fn lemma_no_reordering_under_any_interleaving<T>(steps: Seq<Option<T>>)
    ensures
        received_in(Backpressure::Unbounded, Seq::<T>::empty(), steps) + waiting_after(
            Backpressure::Unbounded,
            Seq::<T>::empty(),
            steps,
        ) == sent_in(steps),
    decreases steps.len(),
{
    let policy = Backpressure::Unbounded;
    let empty = Seq::<T>::empty();
    if steps.len() == 0 {
        assert(received_in(policy, empty, steps) + waiting_after(policy, empty, steps) =~= sent_in(
            steps,
        ));
    } else {
        lemma_no_reordering_under_any_interleaving(steps.drop_last());
        let got = received_in(policy, empty, steps.drop_last());
        let before = waiting_after(policy, empty, steps.drop_last());
        assert(got + before == sent_in(steps.drop_last()));
        match steps.last() {
            Some(frame) => {
                assert(got + before.push(frame) =~= (got + before).push(frame));
            },
            None => {
                if before.len() > 0 {
                    assert(got.push(before[0]) + before.drop_first() =~= got + before);
                }
            },
        }
    }
}

/// Whether the numbers of `frames` go up from each to the next.
pub open spec fn ascending(frames: Seq<nat>) -> bool {
    forall|i: int, j: int| 0 <= i < j < frames.len() ==> frames[i] < frames[j]
}

/// Whether every number of `part` is one of `whole`.
pub open spec fn drawn_from(part: Seq<nat>, whole: Seq<nat>) -> bool {
    forall|i: int| 0 <= i < part.len() ==> whole.contains(#[trigger] part[i])
}

/// Whatever the policy, and however the producer and the consumer take
/// turns, frames are never reordered: where the producer sends frames that
/// are numbered in the order of their capture, the frames that the consumer
/// got, followed by those that still wait, are frames that were sent, with
/// their numbers going up. A full channel may lose frames; it never swaps
/// them.
pub proof fn lemma_capture_order_survives_backpressure(
    policy: Backpressure,
    steps: Seq<Option<nat>>,
)
    requires
        ascending(sent_in(steps)),
    ensures
        ascending(
            received_in(policy, Seq::<nat>::empty(), steps) + waiting_after(
                policy,
                Seq::<nat>::empty(),
                steps,
            ),
        ),
        drawn_from(
            received_in(policy, Seq::<nat>::empty(), steps) + waiting_after(
                policy,
                Seq::<nat>::empty(),
                steps,
            ),
            sent_in(steps),
        ),
    decreases steps.len(),
{
    let empty = Seq::<nat>::empty();
    if steps.len() > 0 {
        let earlier = steps.drop_last();
        let sent = sent_in(earlier);
        let got = received_in(policy, empty, earlier);
        let before = waiting_after(policy, empty, earlier);
        let all = got + before;
        let now = received_in(policy, empty, steps) + waiting_after(policy, empty, steps);
        match steps.last() {
            Some(frame) => {
                assert(sent_in(steps) == sent.push(frame));
                assert forall|i: int, j: int| 0 <= i < j < sent.len() implies sent[i]
                    < sent[j] by {
                    assert(sent.push(frame)[i] == sent[i]);
                    assert(sent.push(frame)[j] == sent[j]);
                }
                lemma_capture_order_survives_backpressure(policy, earlier);
                assert forall|i: int| 0 <= i < all.len() implies #[trigger] all[i] < frame by {
                    assert(sent.contains(all[i]));
                    let k = choose|k: int| 0 <= k < sent.len() && sent[k] == all[i];
                    assert(sent.push(frame)[k] == sent[k]);
                    assert(sent.push(frame)[sent.len() as int] == frame);
                }
                assert forall|i: int| 0 <= i < sent.len() implies sent.push(frame).contains(
                    #[trigger] sent[i],
                ) by {
                    assert(sent.push(frame)[i] == sent[i]);
                }
                assert(sent.push(frame).contains(frame)) by {
                    assert(sent.push(frame)[sent.len() as int] == frame);
                }
                if policy.has_room(before.len()) {
                    assert(now =~= all.push(frame));
                    assert forall|i: int| 0 <= i < now.len() implies sent_in(steps).contains(
                        #[trigger] now[i],
                    ) by {
                        if i < all.len() {
                            assert(now[i] == all[i]);
                            assert(sent.contains(all[i]));
                        }
                    }
                } else if policy.displaces(before.len()) {
                    assert(now =~= got + before.drop_first().push(frame));
                    assert forall|i: int, j: int| 0 <= i < j < now.len() implies now[i]
                        < now[j] by {
                        let a = if i < got.len() {
                            i
                        } else {
                            i + 1
                        };
                        assert(now[i] == all[a]);
                        if j < now.len() - 1 {
                            let b = if j < got.len() {
                                j
                            } else {
                                j + 1
                            };
                            assert(now[j] == all[b]);
                        } else {
                            assert(now[j] == frame);
                        }
                    }
                    assert forall|i: int| 0 <= i < now.len() implies sent_in(steps).contains(
                        #[trigger] now[i],
                    ) by {
                        if i < now.len() - 1 {
                            let a = if i < got.len() {
                                i
                            } else {
                                i + 1
                            };
                            assert(now[i] == all[a]);
                            assert(sent.contains(all[a]));
                        }
                    }
                } else {
                    assert(now =~= all);
                    assert forall|i: int| 0 <= i < now.len() implies sent_in(steps).contains(
                        #[trigger] now[i],
                    ) by {
                        assert(sent.contains(all[i]));
                    }
                }
            },
            None => {
                assert(sent_in(steps) == sent);
                lemma_capture_order_survives_backpressure(policy, earlier);
                assert(now =~= all);
            },
        }
    }
}

} // verus!
