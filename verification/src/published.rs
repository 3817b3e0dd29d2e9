//! The owner side of a published field, and of a signal.
//!
//! A `PublishedField` pairs a field's value with the latest-value channel
//! its changes are broadcast on.  Construction publishes the initial value
//! at once, so a subscriber attaching before any mutation still observes
//! the initial state on its first poll.  Every write goes through
//! [`PublishedField::set`], the one mutate-and-publish accessor, so
//! external observers can never miss a write path: the field's value and
//! the channel's current value agree at all times.
//!
//! A `Signal` is the same broadcast machinery with no backing storage:
//! only an emit path and subscribers.

use vstd::prelude::*;

use crate::watch::Receiver;
use crate::watch::Watch;
use crate::watch::poll_advances;
use crate::watch::poll_observation;

verus! {

/// A field whose changes are broadcast: the value under the owner's
/// exclusive access, and the latest-value channel carrying its changes.
pub struct PublishedField<T> {
    value: T,
    channel: Watch<T>,
}

impl<T> PublishedField<T> {
    /// The field's current value.
    pub closed spec fn value(&self) -> T {
        self.value
    }

    /// The channel carrying the field's changes.
    pub closed spec fn channel(&self) -> Watch<T> {
        self.channel
    }

    /// The published field's invariant: the channel is well formed, was
    /// written at least once (the initial publication), and holds exactly
    /// the field's current value — no write path bypasses publication.
    pub open spec fn wf(&self) -> bool {
        &&& self.channel().wf()
        &&& self.channel().writes() >= 1
        &&& self.channel().current() == Some(self.value())
    }
}

impl<T: Copy> PublishedField<T> {
    /// Creates the field with its initial value and broadcasts that value
    /// at once, so subscribers need no write to learn the initial state.
    pub fn new(initial: T, max_subscribers: usize) -> (s: PublishedField<T>)
        ensures
            s.wf(),
            s.value() == initial,
            s.channel().writes() == 1,
            s.channel().receiver_count() == 0,
            s.channel().max_receiver_count() == max_subscribers as nat,
    {
        let mut channel = Watch::new(max_subscribers);
        channel.send(initial);
        PublishedField { value: initial, channel }
    }

    /// The mutate-and-publish accessor: swaps the field's value and pushes
    /// one change event, synchronously and without ever blocking on
    /// subscriber behaviour.  Setting the same value still publishes.
    pub fn set(&mut self, v: T)
        requires
            old(self).wf(),
            old(self).channel().writes() < u64::MAX,
        ensures
            final(self).wf(),
            final(self).value() == v,
            final(self).channel().current() == Some(v),
            final(self).channel().writes() == old(self).channel().writes() + 1,
            final(self).channel().receiver_count() == old(self).channel().receiver_count(),
            final(self).channel().max_receiver_count() == old(self).channel().max_receiver_count(),
    {
        self.value = v;
        self.channel.send(v);
    }

    /// The getter: a copy of the current value under the owner's exclusive
    /// access.
    pub fn get(&self) -> (r: T)
        ensures
            r == self.value(),
    {
        self.value
    }

    /// Attaches a new subscriber to the field's channel.  Succeeds exactly
    /// while the fan-out limit has room.
    pub fn subscribe(&mut self) -> (r: Option<Receiver>)
        requires
            old(self).wf(),
        ensures
            final(self).wf(),
            final(self).value() == old(self).value(),
            final(self).channel().current() == old(self).channel().current(),
            final(self).channel().writes() == old(self).channel().writes(),
            final(self).channel().max_receiver_count() == old(self).channel().max_receiver_count(),
            r is Some <==> old(self).channel().receiver_count() < old(
                self,
            ).channel().max_receiver_count(),
            r matches Some(rc) ==> rc.fresh() && final(self).channel().receiver_count() == old(
                self,
            ).channel().receiver_count() + 1,
            r is None ==> final(self).channel().receiver_count() == old(
                self,
            ).channel().receiver_count(),
    {
        self.channel.receiver()
    }

    /// The channel, for subscribers to poll against.
    pub fn watch_ref(&self) -> (r: &Watch<T>)
        ensures
            *r == self.channel(),
    {
        &self.channel
    }
}

/// Law: construction alone suffices for observation.  A state built with
/// an initial value and never mutated delivers that value as a fresh
/// subscriber's first observation, without requiring any write.
pub proof fn lemma_initial_value_first_observation<T>(p: PublishedField<T>, rc: Receiver)
    requires
        p.wf(),
        rc.fresh(),
    ensures
        poll_observation(rc, p.channel()) == Some(p.value()),
{
}

/// Law: one call of the mutate-and-publish accessor emits exactly one
/// change observation to a subscriber that has kept up.  `p2` is the field
/// after one `set(v)` — by [`PublishedField::set`]'s contract one more
/// write carrying `v` — and `rc2` is the subscriber after the observing
/// poll: the value is observed on that poll and not again until another
/// write happens.
pub proof fn lemma_set_observed_exactly_once<T>(
    p: PublishedField<T>,
    p2: PublishedField<T>,
    rc: Receiver,
    rc2: Receiver,
    v: T,
)
    requires
        p.wf(),
        !rc.is_first_poll(),
        rc.seen() == p.channel().writes(),
        p2.wf(),
        p2.value() == v,
        p2.channel().writes() == p.channel().writes() + 1,
        p2.channel().current() == Some(v),
        poll_advances(rc, rc2, p2.channel()),
    ensures
        poll_observation(rc, p2.channel()) == Some(v),
        poll_observation(rc2, p2.channel()) == None::<T>,
{
}

/// An explicit signal: the broadcast machinery of a published field with
/// no backing storage — an emit path and a subscriber type.
pub struct Signal<T> {
    channel: Watch<T>,
}

impl<T> Signal<T> {
    /// The channel carrying the signal's payloads.
    pub closed spec fn channel(&self) -> Watch<T> {
        self.channel
    }

    /// The signal's invariant: its channel is well formed.
    pub open spec fn wf(&self) -> bool {
        self.channel().wf()
    }
}

impl<T: Copy> Signal<T> {
    /// Creates the signal's channel; nothing is emitted yet.
    pub fn new(max_subscribers: usize) -> (s: Signal<T>)
        ensures
            s.wf(),
            s.channel().writes() == 0,
            s.channel().current() is None,
            s.channel().receiver_count() == 0,
            s.channel().max_receiver_count() == max_subscribers as nat,
    {
        Signal { channel: Watch::new(max_subscribers) }
    }

    /// Emits one payload to every attached subscriber, without blocking.
    pub fn emit(&mut self, payload: T)
        requires
            old(self).wf(),
            old(self).channel().writes() < u64::MAX,
        ensures
            final(self).wf(),
            final(self).channel().current() == Some(payload),
            final(self).channel().writes() == old(self).channel().writes() + 1,
            final(self).channel().receiver_count() == old(self).channel().receiver_count(),
            final(self).channel().max_receiver_count() == old(self).channel().max_receiver_count(),
    {
        self.channel.send(payload);
    }

    /// Attaches a new subscriber to the signal.
    pub fn subscribe(&mut self) -> (r: Option<Receiver>)
        requires
            old(self).wf(),
        ensures
            final(self).wf(),
            final(self).channel().current() == old(self).channel().current(),
            final(self).channel().writes() == old(self).channel().writes(),
            final(self).channel().max_receiver_count() == old(self).channel().max_receiver_count(),
            r is Some <==> old(self).channel().receiver_count() < old(
                self,
            ).channel().max_receiver_count(),
            r matches Some(rc) ==> rc.fresh() && final(self).channel().receiver_count() == old(
                self,
            ).channel().receiver_count() + 1,
            r is None ==> final(self).channel().receiver_count() == old(
                self,
            ).channel().receiver_count(),
    {
        self.channel.receiver()
    }

    /// The channel, for subscribers to poll against.
    pub fn watch_ref(&self) -> (r: &Watch<T>)
        ensures
            *r == self.channel(),
    {
        &self.channel
    }
}

} // verus!

