//! The ends of a window's channels that its worker writes to, each with a record of all that was
//! put to the channel through it.
//!
//! An outlet makes its channel, and the library writes to that channel in no other way. So what the
//! record gains in a step is exactly what the step has put to the channel. An outlet also counts how
//! often it has handed its channel out: whoever holds an outlet can do nothing else to the channel
//! without that.
use std::sync::Arc;

use tokio::sync::{broadcast, watch, Notify};
use vstd::prelude::*;

pub use crate::dimensions::SizeOutlet;
use crate::dimensions::{
    new_size_channel, size_made_with, size_source, subscribe_size, update_dimensions, PhysicalSize,
};
use crate::worker::Publication;

verus! {

/// Signals that a redraw is requested.
pub struct RedrawOutlet {
    signal: Arc<Notify>,
    given: Ghost<nat>,
    handed: Ghost<nat>,
}

impl RedrawOutlet {
    pub closed spec fn channel(self) -> Arc<Notify> {
        self.signal
    }

    /// How often a permit was given to the signal.
    pub closed spec fn given(self) -> nat {
        self.given@
    }

    /// How often the signal was handed out. Only those that were handed it can take a permit.
    pub closed spec fn handed(self) -> nat {
        self.handed@
    }

    /// Makes a signal that was given no permit.
    pub(crate) fn new() -> (outlet: Self)
        ensures
            call_ensures(Notify::new, (), *outlet.channel()),
            outlet.given() == 0,
            outlet.handed() == 0,
    {
        RedrawOutlet { signal: Arc::new(Notify::new()), given: Ghost(0), handed: Ghost(0) }
    }

    /// Another handle on the signal.
    pub(crate) fn handle(&mut self) -> (signal: Arc<Notify>)
        ensures
            signal == old(self).channel(),
            final(self).channel() == old(self).channel(),
            final(self).given() == old(self).given(),
            final(self).handed() == old(self).handed() + 1,
    {
        self.handed = Ghost(self.handed@ + 1);
        self.signal.clone()
    }

    /// Gives the signal its permit, or wakes one that waits for it:
    /// `tokio::sync::Notify::notify_one`.
    ///
    /// The record counts the call. What it does is seen only by the others that share the signal.
    #[verifier::external_body]
    pub(crate) fn notify_one(&mut self)
        ensures
            final(self).channel() == old(self).channel(),
            final(self).given() == old(self).given() + 1,
            final(self).handed() == old(self).handed(),
        opens_invariants none
    {
        self.signal.notify_one()
    }
}

/// What the channel for the request to close was made with.
pub uninterp spec fn close_made_with(close_requested: watch::Sender<bool>) -> bool;

/// Makes a channel for the request to close: `tokio::sync::watch::Sender::new`.
#[verifier::external_body]
fn new_close_channel(requested: bool) -> (close_requested: watch::Sender<bool>)
    ensures
        close_made_with(close_requested) == requested,
{
    watch::Sender::new(requested)
}

/// Sets whether the window was asked to close.
pub struct CloseOutlet {
    sender: watch::Sender<bool>,
    put: Ghost<Seq<bool>>,
    handed: Ghost<nat>,
}

impl CloseOutlet {
    pub closed spec fn channel(self) -> watch::Sender<bool> {
        self.sender
    }

    /// All that was put to the channel, in order.
    pub closed spec fn put(self) -> Seq<bool> {
        self.put@
    }

    /// How often the channel was handed out.
    pub closed spec fn handed(self) -> nat {
        self.handed@
    }

    /// Makes a channel on which `requested` is set.
    pub(crate) fn new(requested: bool) -> (outlet: Self)
        ensures
            close_made_with(outlet.channel()) == requested,
            outlet.put() == Seq::<bool>::empty(),
            outlet.handed() == 0,
    {
        CloseOutlet {
            sender: new_close_channel(requested),
            put: Ghost(Seq::empty()),
            handed: Ghost(0),
        }
    }

    /// Another handle on the channel.
    pub(crate) fn handle(&mut self) -> (close_requested: watch::Sender<bool>)
        ensures
            close_requested == old(self).channel(),
            final(self).channel() == old(self).channel(),
            final(self).put() == old(self).put(),
            final(self).handed() == old(self).handed() + 1,
    {
        self.handed = Ghost(self.handed@ + 1);
        self.sender.clone()
    }

    /// Sets whether the window was asked to close: `tokio::sync::watch::Sender::send_replace`.
    ///
    /// The record gains what is set. What was set before is not handed out.
    #[verifier::external_body]
    pub(crate) fn send(&mut self, requested: bool)
        ensures
            final(self).channel() == old(self).channel(),
            final(self).put() == old(self).put().push(requested),
            final(self).handed() == old(self).handed(),
        opens_invariants none
    {
        self.sender.send_replace(requested);
    }
}

/// Sends events to those who listen.
#[verifier::reject_recursive_types(T)]
pub struct EventOutlet<T> {
    sender: broadcast::Sender<T>,
    put: Ghost<Seq<T>>,
    answers: Ghost<Seq<Result<usize, T>>>,
    handed: Ghost<nat>,
}

impl<T> EventOutlet<T> {
    pub closed spec fn channel(self) -> broadcast::Sender<T> {
        self.sender
    }

    /// All events that were put to the channel, in order.
    pub closed spec fn put(self) -> Seq<T> {
        self.put@
    }

    /// What came of each of them: the count of subscriptions that it went to, or the event itself
    /// where there was none.
    pub closed spec fn answers(self) -> Seq<Result<usize, T>> {
        self.answers@
    }

    /// How often the channel was handed out. Only those that were handed it can subscribe.
    pub closed spec fn handed(self) -> nat {
        self.handed@
    }

    /// Makes a channel that keeps at least the last `capacity` events.
    pub(crate) fn new(capacity: usize) -> (outlet: Self)
        requires
            0 < capacity <= 1024,
        ensures
            call_ensures(broadcast::Sender::<T>::new, (capacity,), outlet.channel()),
            outlet.put() == Seq::<T>::empty(),
            outlet.answers() == Seq::<Result<usize, T>>::empty(),
            outlet.handed() == 0,
    {
        EventOutlet {
            sender: broadcast::Sender::new(capacity),
            put: Ghost(Seq::empty()),
            answers: Ghost(Seq::empty()),
            handed: Ghost(0),
        }
    }

    /// Another handle on the channel.
    pub(crate) fn handle(&mut self) -> (events: broadcast::Sender<T>)
        ensures
            events == old(self).channel(),
            final(self).channel() == old(self).channel(),
            final(self).put() == old(self).put(),
            final(self).answers() == old(self).answers(),
            final(self).handed() == old(self).handed() + 1,
    {
        self.handed = Ghost(self.handed@ + 1);
        self.sender.clone()
    }

    /// Sends an event to all subscriptions: `tokio::sync::broadcast::Sender::send`.
    ///
    /// The record gains the event and the answer. On success that is the count of subscriptions,
    /// which is not zero. Without any subscription the event comes back. Which it is, is up to the
    /// holders of subscriptions.
    #[verifier::external_body]
    pub(crate) fn send(&mut self, event: T) -> (sent: Result<usize, T>)
        ensures
            final(self).channel() == old(self).channel(),
            final(self).put() == old(self).put().push(event),
            final(self).answers() == old(self).answers().push(sent),
            final(self).handed() == old(self).handed(),
            sent matches Ok(count) ==> count > 0,
            sent matches Err(back) ==> back == event,
        opens_invariants none
    {
        match self.sender.send(event) {
            Ok(count) => Ok(count),
            Err(error) => Err(error.0),
        }
    }
}

/// The writing end of a window's size, with a record of the sizes put to it.
pub(crate) struct SizeSender {
    sender: watch::Sender<PhysicalSize>,
    put: Ghost<Seq<PhysicalSize>>,
}

impl SizeSender {
    pub closed spec fn channel(self) -> watch::Sender<PhysicalSize> {
        self.sender
    }

    /// All sizes that were put to the channel, in order.
    pub closed spec fn put(self) -> Seq<PhysicalSize> {
        self.put@
    }

    /// Makes a channel on which `size` is set, with a subscription to it.
    pub(crate) fn new(size: PhysicalSize) -> (made: (Self, watch::Receiver<PhysicalSize>))
        ensures
            made.0.channel() == size_source(made.1),
            size_made_with(size_source(made.1)) == size,
            made.0.put() == Seq::<PhysicalSize>::empty(),
    {
        let sender = new_size_channel(size);
        let subscription = subscribe_size(&sender);
        (SizeSender { sender, put: Ghost(Seq::empty()) }, subscription)
    }

    /// Puts a reported size to the channel, which passes it on if it is news:
    /// `tokio::sync::watch::Sender::send_if_modified`.
    ///
    /// The record gains the size. Whether it is news is up to what the channel holds at the time,
    /// and is not handed out.
    #[verifier::external_body]
    pub(crate) fn send(&mut self, reported: PhysicalSize)
        ensures
            final(self).channel() == old(self).channel(),
            final(self).put() == old(self).put().push(reported),
        opens_invariants none
    {
        self.sender.send_if_modified(|current| update_dimensions(current, reported));
    }
}

/// One thing that the worker of a window has told: a publication to the holders, or an event to the
/// listeners to all events.
pub enum Told<K, E> {
    Publication { publication: Publication<K> },
    Event { event: E },
}

/// Keeps the order in which the worker of a window tells things over all of its outlets.
#[verifier::reject_recursive_types(K)]
#[verifier::reject_recursive_types(E)]
pub struct Journal<K, E> {
    told: Ghost<Seq<Told<K, E>>>,
}

impl<K, E> View for Journal<K, E> {
    type V = Seq<Told<K, E>>;

    closed spec fn view(&self) -> Seq<Told<K, E>> {
        self.told@
    }
}

impl<K, E> Journal<K, E> {
    /// A journal in which nothing was noted.
    pub(crate) fn new() -> (journal: Self)
        ensures
            journal@ == Seq::<Told<K, E>>::empty(),
    {
        Journal { told: Ghost(Seq::empty()) }
    }

    /// Notes the next thing that is told.
    pub(crate) fn note(&mut self, told: Ghost<Told<K, E>>)
        ensures
            final(self)@ == old(self)@.push(told@),
        opens_invariants none
    {
        self.told = Ghost(self.told@.push(told@));
    }
}

} // verus!
