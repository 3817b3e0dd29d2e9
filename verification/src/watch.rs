//! The latest-value channel primitive.
//!
//! A `Watch` retains only the most recent value sent through it.  It has a
//! single writer (the owner task) and a bounded number of readers.  Sending
//! never blocks the writer; a slow reader misses intermediate values and
//! observes only the newest one.  A `Receiver` tracks how many writes it has
//! already observed; its first poll is special-cased to deliver the value
//! that is current at that moment, so a reader attaching late still learns
//! the present state without waiting for the next change.

use vstd::prelude::*;

verus! {

/// A latest-value channel: holds the most recent value sent, a count of the
/// writes so far, and the bookkeeping for its bounded reader fan-out.
pub struct Watch<T> {
    value: Option<T>,
    version: u64,
    receivers: usize,
    max_receivers: usize,
}

/// A reader handle for one `Watch`, created by [`Watch::receiver`] and bound
/// to that channel.  It records the number of writes it has observed and
/// whether its first poll is still outstanding.
pub struct Receiver {
    seen: u64,
    first_poll: bool,
}

impl<T> Watch<T> {
    /// The value most recently sent, if any write happened yet.
    pub closed spec fn current(&self) -> Option<T> {
        self.value
    }

    /// How many writes the channel has carried so far.
    pub closed spec fn writes(&self) -> nat {
        self.version as nat
    }

    /// How many receivers are currently attached.
    pub closed spec fn receiver_count(&self) -> nat {
        self.receivers as nat
    }

    /// The fixed fan-out limit the channel was created with.
    pub closed spec fn max_receiver_count(&self) -> nat {
        self.max_receivers as nat
    }

    /// A channel holds a value exactly when at least one write happened, and
    /// never exceeds its reader fan-out limit.
    pub open spec fn wf(&self) -> bool {
        &&& self.writes() == 0 <==> self.current() is None
        &&& self.receiver_count() <= self.max_receiver_count()
    }
}

impl Receiver {
    /// How many writes of the channel this receiver has observed.
    pub closed spec fn seen(&self) -> nat {
        self.seen as nat
    }

    /// Whether the receiver's first poll is still outstanding.
    pub closed spec fn is_first_poll(&self) -> bool {
        self.first_poll
    }

    /// A receiver fresh from [`Watch::receiver`]: nothing observed yet.
    pub open spec fn fresh(&self) -> bool {
        self.seen() == 0 && self.is_first_poll()
    }
}

/// What one poll of receiver `rc` against channel `ch` yields: on the first
/// poll, the current value if one exists; afterwards, the current value
/// exactly when a write happened that `rc` has not observed yet.
pub open spec fn poll_observation<T>(rc: Receiver, ch: Watch<T>) -> Option<T> {
    if rc.is_first_poll() && ch.current() is Some {
        ch.current()
    } else if rc.seen() < ch.writes() {
        ch.current()
    } else {
        None
    }
}

/// How a poll advances the receiver: the first poll is spent, and when a
/// value was delivered the receiver has caught up with every write so far.
pub open spec fn poll_advances<T>(before: Receiver, after: Receiver, ch: Watch<T>) -> bool {
    &&& !after.is_first_poll()
    &&& after.seen() == if poll_observation(before, ch) is Some {
        ch.writes()
    } else {
        before.seen()
    }
}

impl<T: Copy> Watch<T> {
    /// Creates an empty channel that accepts at most `max_receivers`
    /// attached readers.
    pub fn new(max_receivers: usize) -> (w: Watch<T>)
        ensures
            w.wf(),
            w.current() is None,
            w.writes() == 0,
            w.receiver_count() == 0,
            w.max_receiver_count() == max_receivers as nat,
    {
        Watch { value: None, version: 0, receivers: 0, max_receivers }
    }

    /// Publishes `v`: the channel now holds `v` and one more write is
    /// recorded.  Sending never blocks and never fails, however many
    /// receivers are attached or how far they lag.
    pub fn send(&mut self, v: T)
        requires
            old(self).wf(),
            old(self).writes() < u64::MAX,
        ensures
            final(self).wf(),
            final(self).current() == Some(v),
            final(self).writes() == old(self).writes() + 1,
            final(self).receiver_count() == old(self).receiver_count(),
            final(self).max_receiver_count() == old(self).max_receiver_count(),
    {
        self.value = Some(v);
        self.version = self.version + 1;
    }

    /// Reads the current value without consuming a change observation.
    pub fn try_get(&self) -> (r: Option<T>)
        ensures
            r == self.current(),
    {
        self.value
    }

    /// Attaches a new receiver.  Succeeds exactly while the fan-out limit
    /// has room; the new receiver has observed nothing yet.
    pub fn receiver(&mut self) -> (r: Option<Receiver>)
        requires
            old(self).wf(),
        ensures
            final(self).wf(),
            final(self).current() == old(self).current(),
            final(self).writes() == old(self).writes(),
            final(self).max_receiver_count() == old(self).max_receiver_count(),
            r is Some <==> old(self).receiver_count() < old(self).max_receiver_count(),
            r matches Some(rc) ==> rc.fresh() && final(self).receiver_count() == old(
                self,
            ).receiver_count() + 1,
            r is None ==> final(self).receiver_count() == old(self).receiver_count(),
    {
        if self.receivers < self.max_receivers {
            self.receivers = self.receivers + 1;
            Some(Receiver { seen: 0, first_poll: true })
        } else {
            None
        }
    }
}

/// Law: a subscriber created after any number of writes observes, on its
/// first poll, the value of the most recent write — by [`Watch::send`]'s
/// contract the channel's current value — and not a replay of the earlier
/// writes: one poll yields one observation.
pub proof fn lemma_late_subscriber_first_poll_sees_latest<T>(rc: Receiver, ch: Watch<T>, v: T)
    requires
        ch.wf(),
        rc.fresh(),
        ch.writes() >= 1,
        ch.current() == Some(v),
    ensures
        poll_observation(rc, ch) == Some(v),
{
}

/// Law: a subscriber created before any write observes nothing until the
/// first write happens, and then observes exactly the written value.
/// `rc2` is the subscriber after one empty poll, `ch2` the channel after
/// its first write.
pub proof fn lemma_early_subscriber_observes_first_write<T>(
    rc: Receiver,
    rc2: Receiver,
    ch: Watch<T>,
    ch2: Watch<T>,
    v: T,
)
    requires
        ch.wf(),
        ch.writes() == 0,
        rc.fresh(),
        poll_advances(rc, rc2, ch),
        ch2.wf(),
        ch2.writes() == 1,
        ch2.current() == Some(v),
    ensures
        poll_observation(rc, ch) == None::<T>,
        poll_observation(rc2, ch2) == Some(v),
{
}

/// Law: one publish is observed exactly once.  A subscriber that was up to
/// date before a publish observes the published value on its next poll,
/// and observes nothing more until another write happens.  `ch2` is the
/// channel after the one publish, `rc2` the subscriber after the
/// observing poll.
pub proof fn lemma_publish_observed_exactly_once<T>(
    rc: Receiver,
    rc2: Receiver,
    ch: Watch<T>,
    ch2: Watch<T>,
    v: T,
)
    requires
        ch.wf(),
        !rc.is_first_poll(),
        rc.seen() == ch.writes(),
        ch2.wf(),
        ch2.writes() == ch.writes() + 1,
        ch2.current() == Some(v),
        poll_advances(rc, rc2, ch2),
    ensures
        poll_observation(rc, ch2) == Some(v),
        poll_observation(rc2, ch2) == None::<T>,
{
}

impl Receiver {
    /// Polls the channel this receiver was created from.  Returns the
    /// observation [`poll_observation`] describes and advances the receiver
    /// as [`poll_advances`] describes; it never blocks the caller.
    pub fn poll<T: Copy>(&mut self, ch: &Watch<T>) -> (r: Option<T>)
        requires
            ch.wf(),
            old(self).seen() <= ch.writes(),
        ensures
            r == poll_observation(*old(self), *ch),
            poll_advances(*old(self), *final(self), *ch),
            final(self).seen() <= ch.writes(),
    {
        let first = self.first_poll;
        self.first_poll = false;
        if first {
            if let Some(v) = ch.try_get() {
                self.seen = ch.version;
                return Some(v);
            }
        }
        if self.seen < ch.version {
            self.seen = ch.version;
            ch.try_get()
        } else {
            None
        }
    }
}

} // verus!
