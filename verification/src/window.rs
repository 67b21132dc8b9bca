//! The handle on a window, and those who listen to its events.
use std::sync::Arc;

use tokio::sync::{broadcast, watch, Notify};
use vstd::prelude::*;

use crate::channels::{
    poll_notified, polls_notified, receive, receives, subscribe_events, subscribes_to, NotReceived,
};
use crate::dimensions::{size_made_with, size_source, PhysicalSize, WindowDimensionsWatcher};
use crate::outlets::{
    close_made_with, CloseOutlet, EventOutlet, Journal, RedrawOutlet, SizeOutlet, Told,
};
use crate::worker::Publication;
use crate::COMMAND_CHANNEL_DEPTH;

verus! {

/// What each holder of a window has of what they share with its worker.
///
/// `K` is a keyboard event and `E` an event in full.
#[verifier::reject_recursive_types(K)]
#[verifier::reject_recursive_types(E)]
pub struct Window<K, E> {
    /// Holds a permit while a redraw is requested that nobody has taken up.
    pub redraw_requested: Arc<Notify>,
    /// The size of the inside of the window. Only the window's worker sets it.
    pub dimensions: watch::Receiver<PhysicalSize>,
    /// Whether the window was asked to close.
    pub close_requested: watch::Sender<bool>,
    pub keyboard_events: broadcast::Sender<K>,
    pub window_events: broadcast::Sender<E>,
}

/// What the worker of a window has of what it shares with the holders.
#[verifier::reject_recursive_types(K)]
#[verifier::reject_recursive_types(E)]
pub struct WindowPublisher<K, E> {
    pub redraw_requested: RedrawOutlet,
    pub dimensions: SizeOutlet,
    pub close_requested: CloseOutlet,
    pub keyboard_events: EventOutlet<K>,
    pub window_events: EventOutlet<E>,
    /// All that the worker has told, in the order in which it was put to the channels.
    pub told: Journal<K, E>,
}

/// What is left of an event that was sent: nothing, or the event if it came back.
pub open spec fn given_back<T>(sent: Result<usize, T>) -> Option<T> {
    match sent {
        Ok(_) => None,
        Err(back) => Some(back),
    }
}

/// What a sender makes of an attempt to send: the event, if it came back.
pub fn undelivered<T>(sent: Result<usize, T>) -> (back: Option<T>)
    ensures
        back == given_back(sent),
    opens_invariants none
{
    match sent {
        Ok(_) => None,
        Err(back) => Some(back),
    }
}

/// Another holder of the same window.
impl<K, E> Clone for Window<K, E> {
    fn clone(&self) -> (window: Self)
        ensures
            window == *self,
    {
        Window {
            redraw_requested: self.redraw_requested.clone(),
            dimensions: self.dimensions.clone(),
            close_requested: self.close_requested.clone(),
            keyboard_events: self.keyboard_events.clone(),
            window_events: self.window_events.clone(),
        }
    }
}

impl<K, E> WindowPublisher<K, E> {
    /// Whether the worker writes to the channels of this window.
    pub open spec fn serves(self, window: Window<K, E>) -> bool {
        &&& self.redraw_requested.channel() == window.redraw_requested
        &&& self.dimensions.channel() matches Some(dimensions) ==> dimensions == size_source(
            window.dimensions,
        )
        &&& self.close_requested.channel() == window.close_requested
        &&& self.keyboard_events.channel() == window.keyboard_events
        &&& self.window_events.channel() == window.window_events
    }

    /// Whether nothing was put to any channel.
    pub open spec fn is_fresh(self) -> bool {
        &&& self.redraw_requested.given() == 0
        &&& self.dimensions.put().len() == 0
        &&& self.close_requested.put().len() == 0
        &&& self.keyboard_events.put().len() == 0
        &&& self.window_events.put().len() == 0
        &&& self.told@.len() == 0
    }

    /// Whether a worker that had `before` and has `after` has put exactly the publication and the
    /// event to the channels: each to the channel that is for it, once, and nothing else to any.
    /// The worker hands none of the channels out, so it takes nothing from them either.
    ///
    /// Once the window is gone, its size has no writing end.
    pub open spec fn puts(
        before: Self,
        after: Self,
        publication: Publication<K>,
        event: Option<E>,
    ) -> bool {
        &&& after.redraw_requested.channel() == before.redraw_requested.channel()
        &&& after.redraw_requested.handed() == before.redraw_requested.handed()
        &&& after.redraw_requested.given() == before.redraw_requested.given()
            + publication.redraws()
        &&& after.dimensions.channel() == if publication is Closed {
            None
        } else {
            before.dimensions.channel()
        }
        &&& after.dimensions.put() == if before.dimensions.channel() is Some {
            before.dimensions.put() + publication.sizes()
        } else {
            before.dimensions.put()
        }
        &&& after.close_requested.channel() == before.close_requested.channel()
        &&& after.close_requested.handed() == before.close_requested.handed()
        &&& after.close_requested.put() == before.close_requested.put()
            + publication.close_requests()
        &&& after.keyboard_events.channel() == before.keyboard_events.channel()
        &&& after.keyboard_events.handed() == before.keyboard_events.handed()
        &&& after.keyboard_events.put() == before.keyboard_events.put() + publication.keys()
        &&& after.window_events.channel() == before.window_events.channel()
        &&& after.window_events.handed() == before.window_events.handed()
        &&& after.window_events.put() == match event {
            Some(event) => before.window_events.put().push(event),
            None => before.window_events.put(),
        }
    }

    /// Publishes what the window's worker has to say to the holders of the window. Hands back a
    /// keyboard event that nobody listens for.
    ///
    /// A reported size that the window already has is not passed on.
    pub fn publish(&mut self, publication: Publication<K>) -> (undelivered: Option<K>)
        ensures
            Self::puts(*old(self), *final(self), publication, None),
            final(self).told@ == old(self).told@.push(Told::Publication { publication }),
            final(self).window_events == old(self).window_events,
            publication is Key ==> final(self).keyboard_events.answers() == old(
                self,
            ).keyboard_events.answers().push(final(self).keyboard_events.answers().last()),
            !(publication is Key) ==> final(self).keyboard_events == old(self).keyboard_events,
            undelivered == if publication is Key {
                given_back(final(self).keyboard_events.answers().last())
            } else {
                None
            },
            undelivered matches Some(back) ==> publication == (Publication::Key { event: back }),
        opens_invariants none
    {
        let ghost before = *self;
        self.told.note(Ghost(Told::Publication { publication }));
        let undelivered = match publication {
            Publication::Nothing => None,
            Publication::Redraw => {
                self.redraw_requested.notify_one();
                None
            },
            Publication::Dimensions { dimensions } => {
                self.dimensions.send(dimensions);
                None
            },
            Publication::Key { event } => {
                let sent = self.keyboard_events.send(event);
                assert(self.keyboard_events.answers().last() == sent);
                undelivered(sent)
            },
            Publication::CloseRequested => {
                self.close_requested.send(true);
                None
            },
            Publication::Closed => {
                self.dimensions.end();
                None
            },
        };
        proof {
            assert(self.dimensions.put() =~= if before.dimensions.channel() is Some {
                before.dimensions.put() + publication.sizes()
            } else {
                before.dimensions.put()
            });
            assert(self.close_requested.put() =~= before.close_requested.put()
                + publication.close_requests());
            assert(self.keyboard_events.put() =~= before.keyboard_events.put()
                + publication.keys());
        }
        undelivered
    }

    /// Hands an event to the listeners to all events. Hands it back if nobody listens.
    pub fn announce(&mut self, event: E) -> (undelivered: Option<E>)
        ensures
            Self::puts(*old(self), *final(self), Publication::Nothing, Some(event)),
            final(self).told@ == old(self).told@.push(Told::Event { event }),
            final(self).keyboard_events == old(self).keyboard_events,
            final(self).window_events.answers() == old(self).window_events.answers().push(
                final(self).window_events.answers().last(),
            ),
            undelivered == given_back(final(self).window_events.answers().last()),
            undelivered matches Some(back) ==> back == event,
        opens_invariants none
    {
        let ghost before = *self;
        self.told.note(Ghost(Told::Event { event }));
        let sent = self.window_events.send(event);
        proof {
            assert(self.window_events.answers().last() == sent);
            assert(self.dimensions.put() =~= before.dimensions.put() + Seq::empty());
            assert(self.close_requested.put() =~= before.close_requested.put() + Seq::empty());
            assert(self.keyboard_events.put() =~= before.keyboard_events.put() + Seq::empty());
        }
        undelivered(sent)
    }

    /// Publishes what the worker has to say, then hands the event to the listeners to all events,
    /// if there is one. What nobody listens for is thrown away.
    pub fn tell(&mut self, publication: Publication<K>, event: Option<E>)
        ensures
            Self::puts(*old(self), *final(self), publication, event),
            final(self).told@ == match event {
                Some(event) => old(self).told@.push(Told::Publication { publication }).push(
                    Told::Event { event },
                ),
                None => old(self).told@.push(Told::Publication { publication }),
            },
        opens_invariants none
    {
        let ghost before = *self;
        self.publish(publication);
        let ghost between = *self;
        if let Some(event) = event {
            self.announce(event);
            proof {
                assert(self.dimensions.put() =~= between.dimensions.put());
                assert(self.close_requested.put() =~= between.close_requested.put());
                assert(self.keyboard_events.put() =~= between.keyboard_events.put());
            }
        }
    }
}

impl<K, E> Window<K, E> {
    /// The handle on a window with the given inner size, of which nothing was asked yet, and what
    /// its worker needs.
    pub fn new_runtime(inner_size: PhysicalSize) -> (opened: (Self, WindowPublisher<K, E>))
        ensures
            opened.1.serves(opened.0),
            opened.1.is_fresh(),
            opened.1.dimensions.channel() is Some,
            size_made_with(size_source(opened.0.dimensions)) == inner_size,
            close_made_with(opened.0.close_requested) == false,
            call_ensures(Notify::new, (), *opened.0.redraw_requested),
            call_ensures(
                broadcast::Sender::<K>::new,
                (COMMAND_CHANNEL_DEPTH,),
                opened.0.keyboard_events,
            ),
            call_ensures(
                broadcast::Sender::<E>::new,
                (COMMAND_CHANNEL_DEPTH,),
                opened.0.window_events,
            ),
    {
        let (sizes, dimensions) = SizeOutlet::new(inner_size);
        let mut publisher = WindowPublisher {
            redraw_requested: RedrawOutlet::new(),
            dimensions: sizes,
            close_requested: CloseOutlet::new(false),
            keyboard_events: EventOutlet::new(COMMAND_CHANNEL_DEPTH),
            window_events: EventOutlet::new(COMMAND_CHANNEL_DEPTH),
            told: Journal::new(),
        };
        let window = Window {
            redraw_requested: publisher.redraw_requested.handle(),
            dimensions,
            close_requested: publisher.close_requested.handle(),
            keyboard_events: publisher.keyboard_events.handle(),
            window_events: publisher.window_events.handle(),
        };
        (window, publisher)
    }

    /// Check if a redraw is requested for this window.
    ///
    /// If this returns `true` it will not return `true` again until another redraw is requested.
    /// What is returned is whether the poll of the signal took a permit, which rests on the worker
    /// and on the other holders of the window.
    pub fn is_redraw_requested(&self) -> (requested: bool)
        ensures
            exists|notified: Option<()>|
                {
                    &&& #[trigger] polls_notified(self.redraw_requested, notified)
                    &&& requested == (notified is Some)
                },
    {
        let notified = poll_notified(&self.redraw_requested);
        assert(polls_notified(self.redraw_requested, notified));
        notified.is_some()
    }

    /// Watch for changes to window dimensions.
    ///
    /// The watcher has yet to see the size that is set now.
    pub fn dimensions_watcher(&self) -> (watcher: WindowDimensionsWatcher)
        ensures
            watcher.source() == size_source(self.dimensions),
            watcher.owes_dimensions(),
            !watcher.is_closed(),
    {
        WindowDimensionsWatcher::new(&self.dimensions)
    }

    /// Listen to window keyboard events.
    pub fn keyboard_listener(&self) -> (listener: WindowKeyboardListener<K>)
        ensures
            subscribes_to(self.keyboard_events, listener.subscription),
        opens_invariants none
    {
        WindowKeyboardListener { subscription: subscribe_events(&self.keyboard_events) }
    }

    /// Listen to all window events.
    ///
    /// Prefer the listeners for the data you are interested in. This is for support of things that
    /// tie directly into the events of the platform.
    pub fn window_listener(&self) -> (listener: WindowEventListener<E>)
        ensures
            subscribes_to(self.window_events, listener.subscription),
        opens_invariants none
    {
        WindowEventListener { subscription: subscribe_events(&self.window_events) }
    }
}

/// What a listener makes of an attempt to receive.
#[derive(Debug, PartialEq, Eq)]
pub enum Listening<T> {
    /// There is an event.
    Event { event: T },
    /// There is none.
    Nothing,
    /// There are events, but this many before them were missed: the next attempt finds one.
    Again { missed: u64 },
}

/// What a listener makes of the outcome of an attempt to receive.
pub open spec fn heard_in<T>(outcome: Result<T, NotReceived>) -> Listening<T> {
    match outcome {
        Ok(event) => Listening::Event { event },
        Err(NotReceived::Empty) | Err(NotReceived::Closed) => Listening::Nothing,
        Err(NotReceived::Lagged { missed }) => Listening::Again { missed },
    }
}

/// What a listener makes of an attempt to receive. A stretch of missed events does not end it.
pub fn received<T>(outcome: Result<T, NotReceived>) -> (listening: Listening<T>)
    ensures
        listening == heard_in(outcome),
{
    match outcome {
        Ok(event) => Listening::Event { event },
        Err(NotReceived::Empty) => Listening::Nothing,
        Err(NotReceived::Closed) => Listening::Nothing,
        Err(NotReceived::Lagged { missed }) => Listening::Again { missed },
    }
}

/// The number of events that were missed in all.
pub open spec fn total(missed: Seq<u64>) -> nat
    decreases missed.len(),
{
    if missed.len() == 0 {
        0
    } else {
        total(missed.drop_last()) + missed.last() as nat
    }
}

/// Whether a listener that tries to receive over and over finds its subscription in the given
/// states: every attempt but the last one found that events were missed, and the last one had this
/// outcome.
///
/// A stream counts its events in a `u64`. Only a listener that has missed more than that in one
/// stretch gives up.
pub open spec fn tries<T: Clone>(
    states: Seq<broadcast::Receiver<T>>,
    missed: Seq<u64>,
    outcome: Result<T, NotReceived>,
) -> bool {
    &&& states.len() == missed.len() + 2
    &&& forall|i: int|
        0 <= i < missed.len() ==> receives(
            states[i],
            states[i + 1],
            Err(NotReceived::Lagged { missed: #[trigger] missed[i] }),
        )
    &&& receives(states[missed.len() as int], states.last(), outcome)
    &&& outcome matches Err(NotReceived::Lagged { missed: more }) ==> total(missed) + more
        > u64::MAX
}

/// Whether a listener with the subscription `before`, which becomes `after`, is given the event: it
/// is the one that the first attempt gave which did not find that events were missed.
pub open spec fn hears<T: Clone>(
    before: broadcast::Receiver<T>,
    after: broadcast::Receiver<T>,
    event: Option<T>,
) -> bool {
    exists|
        states: Seq<broadcast::Receiver<T>>,
        missed: Seq<u64>,
        outcome: Result<T, NotReceived>,
    |
        {
            &&& #[trigger] tries(states, missed, outcome)
            &&& states.first() == before
            &&& states.last() == after
            &&& outcome matches Ok(received) ==> event == Some(received)
            &&& outcome is Err ==> event is None
        }
}

/// Takes the next event of a stream that is still there.
fn next_event<T: Clone>(subscription: &mut broadcast::Receiver<T>) -> (event: Option<T>)
    ensures
        hears(*old(subscription), *final(subscription), event),
{
    let ghost mut states: Seq<broadcast::Receiver<T>> = seq![*subscription];
    let ghost mut missed: Seq<u64> = Seq::empty();
    let mut skipped: u64 = 0;
    loop
        invariant
            states.len() == missed.len() + 1,
            states.first() == *old(subscription),
            states.last() == *subscription,
            forall|i: int|
                0 <= i < missed.len() ==> receives(
                    states[i],
                    states[i + 1],
                    Err(NotReceived::Lagged { missed: #[trigger] missed[i] }),
                ),
            skipped == total(missed),
        decreases u64::MAX - skipped,
    {
        let (outcome, after) = receive(subscription);
        let ghost before = states.last();
        proof {
            assert(receives(before, after@, outcome));
            states = states.push(after@);
        }
        match received(outcome) {
            Listening::Event { event } => {
                assert(tries(states, missed, outcome));
                return Some(event);
            },
            Listening::Nothing => {
                assert(tries(states, missed, outcome));
                return None;
            },
            Listening::Again { missed: more } => {
                if more > u64::MAX - skipped {
                    assert(tries(states, missed, outcome));
                    return None;
                }
                skipped = skipped + more;
                proof {
                    let longer = missed.push(more);
                    assert(longer.drop_last() =~= missed);
                    missed = longer;
                }
            },
        }
    }
}

/// Listens to the keyboard events of a window.
#[verifier::reject_recursive_types(K)]
pub struct WindowKeyboardListener<K> {
    pub subscription: broadcast::Receiver<K>,
}

impl<K: Clone> WindowKeyboardListener<K> {
    /// Returns a keyboard event if a new one is available, consuming it. A listener that lags gets
    /// the oldest one that is still there.
    ///
    /// Which one that is rests on what the window's worker has sent.
    pub fn event(&mut self) -> (event: Option<K>)
        ensures
            hears(old(self).subscription, final(self).subscription, event),
    {
        next_event(&mut self.subscription)
    }
}

/// Listens to all events of a window.
#[verifier::reject_recursive_types(E)]
pub struct WindowEventListener<E> {
    pub subscription: broadcast::Receiver<E>,
}

impl<E: Clone> WindowEventListener<E> {
    /// Returns an event if a new one is available, consuming it. A listener that lags gets the
    /// oldest one that is still there.
    ///
    /// Which one that is rests on what the window's worker has sent.
    pub fn event(&mut self) -> (event: Option<E>)
        ensures
            hears(old(self).subscription, final(self).subscription, event),
    {
        next_event(&mut self.subscription)
    }
}

} // verus!
