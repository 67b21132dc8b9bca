//! The ends of `tokio` channels that the library holds, and what one poll of them can give.
use std::sync::Arc;

use futures::FutureExt;
use tokio::sync::{broadcast, watch, Notify};
use vstd::prelude::*;

verus! {

/// The writing end of a watched value, `tokio::sync::watch::Sender`.
#[verifier::external_type_specification]
#[verifier::external_body]
#[verifier::reject_recursive_types(T)]
pub struct ExWatchSender<T>(watch::Sender<T>);

/// A subscription to a watched value, `tokio::sync::watch::Receiver`.
#[verifier::external_type_specification]
#[verifier::external_body]
#[verifier::reject_recursive_types(T)]
pub struct ExWatchReceiver<T>(watch::Receiver<T>);

/// The writing end of a stream of events, `tokio::sync::broadcast::Sender`.
#[verifier::external_type_specification]
#[verifier::external_body]
#[verifier::reject_recursive_types(T)]
pub struct ExBroadcastSender<T>(broadcast::Sender<T>);

/// A subscription to a stream of events, `tokio::sync::broadcast::Receiver`.
#[verifier::external_type_specification]
#[verifier::external_body]
#[verifier::reject_recursive_types(T)]
pub struct ExBroadcastReceiver<T>(broadcast::Receiver<T>);

/// A signal that holds at most one permit, `tokio::sync::Notify`.
#[verifier::external_type_specification]
#[verifier::external_body]
pub struct ExNotify(Notify);

/// What one poll of a watched value for a change gives.
#[derive(Clone, Copy, Debug, PartialEq, Eq, Structural)]
pub enum Polled {
    /// Nothing was set that the subscription has not seen.
    Pending,
    /// Something was set that the subscription had not seen; it counts as seen now.
    Changed,
    /// Nothing unseen is left, and the value can never be set again.
    Closed,
}

/// Why a stream of events had none to hand out.
#[derive(Clone, Copy, Debug, PartialEq, Eq, Structural)]
pub enum NotReceived {
    /// There is no event that the subscription has not handed out.
    Empty,
    /// There is none, and none can be sent any more.
    Closed,
    /// The stream has dropped this many events that the subscription had yet to hand out. It goes
    /// on with the oldest one that is kept.
    Lagged { missed: u64 },
}

/// `tokio::sync::watch::Sender::clone` gives another handle on the same channel: the handle is a
/// shared pointer, and the clone points to the same place.
pub assume_specification<T>[ <watch::Sender<T> as Clone>::clone ](
    sender: &watch::Sender<T>,
) -> (other: watch::Sender<T>)
    ensures
        other == *sender,
;

/// `tokio::sync::watch::Receiver::clone` gives another subscription to the same channel that has
/// seen exactly what the given one has: a subscription is a shared pointer and the number of the
/// version that it saw, and both are copied.
pub assume_specification<T>[ <watch::Receiver<T> as Clone>::clone ](
    subscription: &watch::Receiver<T>,
) -> (other: watch::Receiver<T>)
    ensures
        other == *subscription,
;

/// `tokio::sync::broadcast::Sender::clone` gives another handle on the same channel: the handle is
/// a shared pointer, and the clone points to the same place.
pub assume_specification<T>[ <broadcast::Sender<T> as Clone>::clone ](
    sender: &broadcast::Sender<T>,
) -> (other: broadcast::Sender<T>)
    ensures
        other == *sender,
;

/// `tokio::sync::Notify::new` makes a signal without a permit.
///
/// The others that come to share the signal can give it one at any time, so nothing is claimed of
/// what the next poll finds.
pub assume_specification[ Notify::new ]() -> (signal: Notify)
;

/// `tokio::sync::broadcast::Sender::new` makes a stream of events that keeps at least the last
/// `capacity` of them.
///
/// It panics on a `capacity` of zero, and on one for which no buffer can be laid out; the bound
/// here is far below that. Nothing is claimed of what subscriptions will hand out.
pub assume_specification<T>[ broadcast::Sender::<T>::new ](capacity: usize) -> (events: broadcast::Sender<
    T,
>)
    requires
        0 < capacity <= 1024,
;

/// Subscribes to a stream of events: `tokio::sync::broadcast::Sender::subscribe`.
///
/// The subscription gets the events sent from now on. Which those are is up to the other holders
/// of the channel, so nothing is claimed of what the subscription will hand out. The call panics
/// only past a quarter of `usize::MAX` live subscriptions, more than memory can hold.
#[verifier::external_body]
pub(crate) fn subscribe_events<T>(events: &broadcast::Sender<T>) -> (subscription: broadcast::Receiver<
    T,
>)
    opens_invariants none
{
    events.subscribe()
}

/// The subscription is an answer of `tokio::sync::broadcast::Sender::subscribe` to the stream.
pub open(crate) spec fn subscribes_to<T>(
    events: broadcast::Sender<T>,
    subscription: broadcast::Receiver<T>,
) -> bool {
    call_ensures(subscribe_events::<T>, (&events,), subscription)
}

/// Takes the next event of a stream: `tokio::sync::broadcast::Receiver::try_recv`.
///
/// A subscription that lags has missed at least one event. Otherwise whether an event is there, and
/// which, is up to the senders.
#[verifier::external_body]
pub(crate) fn try_receive<T: Clone>(subscription: &mut broadcast::Receiver<T>) -> (received: Result<
    T,
    NotReceived,
>)
    ensures
        received matches Err(NotReceived::Lagged { missed }) ==> missed > 0,
{
    match subscription.try_recv() {
        Ok(event) => Ok(event),
        Err(broadcast::error::TryRecvError::Empty) => Err(NotReceived::Empty),
        Err(broadcast::error::TryRecvError::Closed) => Err(NotReceived::Closed),
        Err(broadcast::error::TryRecvError::Lagged(missed)) => Err(NotReceived::Lagged { missed }),
    }
}

/// Takes the next event of a stream, and notes what the subscription is afterwards.
pub(crate) fn receive<T: Clone>(subscription: &mut broadcast::Receiver<T>) -> (received: (
    Result<T, NotReceived>,
    Ghost<broadcast::Receiver<T>>,
))
    ensures
        exists|same: &mut broadcast::Receiver<T>|
            {
                &&& *same == *old(subscription)
                &&& *final(same) == *final(subscription)
                &&& #[trigger] call_ensures(try_receive::<T>, (same,), received.0)
            },
        received.1@ == *final(subscription),
        received.0 matches Err(NotReceived::Lagged { missed }) ==> missed > 0,
{
    let received = try_receive(subscription);
    (received, Ghost(*subscription))
}

/// `received` is an answer of `tokio::sync::broadcast::Receiver::try_recv` to the subscription
/// `before`, by which it becomes `after`.
pub open(crate) spec fn receives<T: Clone>(
    before: broadcast::Receiver<T>,
    after: broadcast::Receiver<T>,
    received: Result<T, NotReceived>,
) -> bool {
    exists|subscription: &mut broadcast::Receiver<T>|
        *subscription == before && #[trigger] call_ensures(
            receive::<T>,
            (subscription,),
            (received, Ghost(after)),
        )
}

/// Takes the permit of a signal if it holds one: `tokio::sync::Notify::notified`, polled once by
/// `futures::FutureExt::now_or_never`.
///
/// Whether a permit is there is up to the other holders of the signal, so nothing is claimed of
/// it. A function that opens no invariants cannot make this call, and so takes no permit.
#[verifier::external_body]
pub(crate) fn poll_notified(signal: &Arc<Notify>) -> (notified: Option<()>) {
    signal.notified().now_or_never()
}

/// `notified` is an answer to one poll of the signal's `tokio::sync::Notify::notified`.
pub open(crate) spec fn polls_notified(signal: Arc<Notify>, notified: Option<()>) -> bool {
    call_ensures(poll_notified, (&signal,), notified)
}

} // verus!
