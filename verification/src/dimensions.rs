//! The size of a window in pixels, and how to follow it.
use futures::FutureExt;
use tokio::sync::watch;
use vstd::prelude::*;

use crate::channels::Polled;
use crate::error::TwwError;
use crate::outlets::SizeSender;

verus! {

/// The size of the inside of a window, in pixels.
#[derive(Copy, Clone, Debug, PartialEq, Eq, Structural)]
pub struct PhysicalSize {
    pub width: u32,
    pub height: u32,
}

/// Whether a report of the size is news: one of the size that the window already has is spurious.
pub open spec fn is_news(current: PhysicalSize, reported: PhysicalSize) -> bool {
    current != reported
}

/// Takes a reported size over and says if it is news.
pub fn update_dimensions(current: &mut PhysicalSize, reported: PhysicalSize) -> (modified: bool)
    ensures
        *final(current) == reported,
        modified == is_news(*old(current), reported),
        modified == (old(current).width != reported.width || old(current).height
            != reported.height),
{
    if *current != reported {
        *current = reported;
        true
    } else {
        false
    }
}

/// A report is news exactly if it differs in the width or in the height.
pub proof fn any_other_width_or_height_is_news(current: PhysicalSize, reported: PhysicalSize)
    ensures
        is_news(current, reported) <==> current.width != reported.width || current.height
            != reported.height,
{
}

/// The number of reports in a run that are news, for a window that has the size `current` before.
pub open spec fn news(current: PhysicalSize, reports: Seq<PhysicalSize>) -> nat
    decreases reports.len(),
{
    if reports.len() == 0 {
        0
    } else {
        (if is_news(current, reports[0]) {
            1nat
        } else {
            0
        }) + news(reports[0], reports.skip(1))
    }
}

/// A size that is reported over and over is news at most once.
pub proof fn a_repeated_size_is_news_once(current: PhysicalSize, reports: Seq<PhysicalSize>)
    requires
        forall|i: int| 0 <= i < reports.len() ==> #[trigger] reports[i] == reports[0],
    ensures
        news(current, reports) == if reports.len() > 0 && is_news(current, reports[0]) {
            1nat
        } else {
            0
        },
    decreases reports.len(),
{
    if reports.len() > 0 {
        let rest = reports.skip(1);
        assert forall|i: int| 0 <= i < rest.len() implies #[trigger] rest[i] == rest[0] by {
            assert(rest[i] == reports[i + 1]);
            assert(rest[0] == reports[1]);
        }
        a_repeated_size_is_news_once(reports[0], rest);
        if rest.len() > 0 {
            assert(rest[0] == reports[1]);
        }
    }
}

/// Every report of a run is news if each differs from the one before it.
pub proof fn a_size_that_keeps_changing_is_always_news(
    current: PhysicalSize,
    reports: Seq<PhysicalSize>,
)
    requires
        reports.len() > 0 ==> reports[0].width != current.width || reports[0].height
            != current.height,
        forall|i: int, j: int|
            0 <= i < j < reports.len() && j == i + 1 ==> (#[trigger] reports[i]).width != (
            #[trigger] reports[j]).width || reports[i].height != reports[j].height,
    ensures
        news(current, reports) == reports.len(),
    decreases reports.len(),
{
    if reports.len() > 0 {
        let rest = reports.skip(1);
        assert forall|i: int, j: int| 0 <= i < j < rest.len() && j == i + 1 implies (
        #[trigger] rest[i]).width != (#[trigger] rest[j]).width || rest[i].height
            != rest[j].height by {
            assert(rest[i] == reports[i + 1]);
            assert(rest[j] == reports[j + 1]);
        }
        if rest.len() > 0 {
            assert(rest[0] == reports[1]);
            assert(reports[0].width != reports[1].width || reports[0].height
                != reports[1].height);
        }
        a_size_that_keeps_changing_is_always_news(reports[0], rest);
    }
}

/// The size that the channel was made with.
pub uninterp spec fn size_made_with(dimensions: watch::Sender<PhysicalSize>) -> PhysicalSize;

/// Makes a channel for the size: `tokio::sync::watch::Sender::new`.
#[verifier::external_body]
pub(crate) fn new_size_channel(size: PhysicalSize) -> (dimensions: watch::Sender<PhysicalSize>)
    ensures
        size_made_with(dimensions) == size,
{
    watch::Sender::new(size)
}

/// Whether the subscription was marked as changed and has not caught up with the channel since.
///
/// This is about the subscription alone: it is set by `mark_changed` and cleared by every read
/// that catches up, whatever is sent on the channel meanwhile.
pub uninterp spec fn size_marked(subscription: watch::Receiver<PhysicalSize>) -> bool;

/// The size that the channel held at the version which the subscription has caught up with.
///
/// A subscription keeps the number of the last version that it saw; the channel may have moved on.
pub uninterp spec fn size_seen(subscription: watch::Receiver<PhysicalSize>) -> PhysicalSize;

/// The writing end of the channel that the subscription reads.
pub uninterp spec fn size_source(subscription: watch::Receiver<PhysicalSize>) -> watch::Sender<
    PhysicalSize,
>;

/// Subscribes to the size: `tokio::sync::watch::Sender::subscribe`.
///
/// The subscription reads the channel that is written here. Everything set so far counts as seen
/// by it, and it is not marked.
#[verifier::external_body]
pub(crate) fn subscribe_size(dimensions: &watch::Sender<PhysicalSize>) -> (subscription: watch::Receiver<
    PhysicalSize,
>)
    ensures
        size_source(subscription) == *dimensions,
        !size_marked(subscription),
{
    dimensions.subscribe()
}

/// Makes the subscription count the current size as unseen:
/// `tokio::sync::watch::Receiver::mark_changed`.
#[verifier::external_body]
fn mark_size_changed(subscription: &mut watch::Receiver<PhysicalSize>)
    ensures
        size_source(*final(subscription)) == size_source(*old(subscription)),
        size_marked(*final(subscription)),
{
    subscription.mark_changed()
}

/// Reads the current size and counts it as seen:
/// `tokio::sync::watch::Receiver::borrow_and_update`.
///
/// What is handed out is the size of the version that the subscription has seen afterwards. Which
/// size that is, is up to the writers.
#[verifier::external_body]
fn read_size(subscription: &mut watch::Receiver<PhysicalSize>) -> (size: PhysicalSize)
    ensures
        size_source(*final(subscription)) == size_source(*old(subscription)),
        !size_marked(*final(subscription)),
        size == size_seen(*final(subscription)),
{
    *subscription.borrow_and_update()
}

/// Asks once for a size that the subscription has not seen:
/// `tokio::sync::watch::Receiver::changed`, polled once by `futures::FutureExt::now_or_never`.
///
/// A marked subscription lags the channel until it catches up, and a change that has not been
/// seen is reported even where the channel is closed. (The channel counts what is sent in a word
/// less one bit; the claim leaves out a count that runs once round since the subscription last
/// caught up.) In all cases the subscription has caught up afterwards; without a change it is left
/// as it was. Otherwise the answer is up to the writers.
#[verifier::external_body]
pub(crate) fn poll_size(subscription: &mut watch::Receiver<PhysicalSize>) -> (polled: Polled)
    ensures
        size_source(*final(subscription)) == size_source(*old(subscription)),
        !size_marked(*final(subscription)),
        size_marked(*old(subscription)) ==> polled == Polled::Changed,
        polled != Polled::Changed ==> *final(subscription) == *old(subscription),
{
    match subscription.changed().now_or_never() {
        None => Polled::Pending,
        Some(Ok(())) => Polled::Changed,
        Some(Err(_)) => Polled::Closed,
    }
}

/// `polled` is an answer to one poll of the subscription's `tokio::sync::watch::Receiver::changed`.
pub closed spec fn polls_size(
    subscription: watch::Receiver<PhysicalSize>,
    polled: Polled,
) -> bool {
    exists|same: &mut watch::Receiver<PhysicalSize>|
        *same == subscription && #[trigger] call_ensures(poll_size, (same,), polled)
}

/// An answer to a poll comes from a poll of that very subscription. One that is marked is answered
/// with a change.
pub(crate) proof fn a_size_is_polled(subscription: watch::Receiver<PhysicalSize>, polled: Polled)
    requires
        polls_size(subscription, polled),
    ensures
        exists|same: &mut watch::Receiver<PhysicalSize>|
            *same == subscription && #[trigger] call_ensures(poll_size, (same,), polled),
        size_marked(subscription) ==> polled == Polled::Changed,
{
}

/// Sets the size of a window until the window is gone.
pub struct SizeOutlet {
    sender: Option<SizeSender>,
    ended: Ghost<Seq<PhysicalSize>>,
}

impl SizeOutlet {
    /// The only writing end of the size. There is none any more once the window is gone.
    pub closed spec fn channel(self) -> Option<watch::Sender<PhysicalSize>> {
        match self.sender {
            Some(size) => Some(size.channel()),
            None => None,
        }
    }

    /// All sizes that were put to the channel, in order.
    pub closed spec fn put(self) -> Seq<PhysicalSize> {
        match self.sender {
            Some(size) => size.put(),
            None => self.ended@,
        }
    }

    /// Makes a channel on which `size` is set, with a subscription to it.
    pub(crate) fn new(size: PhysicalSize) -> (made: (Self, watch::Receiver<PhysicalSize>))
        ensures
            made.0.channel() == Some(size_source(made.1)),
            size_made_with(size_source(made.1)) == size,
            made.0.put() == Seq::<PhysicalSize>::empty(),
    {
        let (sender, subscription) = SizeSender::new(size);
        (SizeOutlet { sender: Some(sender), ended: Ghost(Seq::empty()) }, subscription)
    }

    /// Puts a reported size to the channel as long as there is a writing end.
    pub(crate) fn send(&mut self, reported: PhysicalSize)
        ensures
            final(self).channel() == old(self).channel(),
            final(self).put() == if old(self).channel() is Some {
                old(self).put().push(reported)
            } else {
                old(self).put()
            },
        opens_invariants none
    {
        if let Some(size) = &mut self.sender {
            size.send(reported);
        }
    }

    /// Lets go of the writing end, by which those who watch the size learn that the window is gone.
    pub(crate) fn end(&mut self)
        ensures
            final(self).channel() is None,
            final(self).put() == old(self).put(),
        opens_invariants none
    {
        self.ended = Ghost(self.put());
        self.sender = None;
    }
}

/// Follows the size of a window.
pub struct WindowDimensionsWatcher {
    pub subscription: watch::Receiver<PhysicalSize>,
    /// Whether the watcher has found the window closed.
    pub closed: bool,
}

impl WindowDimensionsWatcher {
    /// Whether the watcher has found the window closed. It stays so.
    pub open spec fn is_closed(&self) -> bool {
        self.closed
    }

    /// Whether the watcher will report a size at the next poll, come what may.
    pub open spec fn owes_dimensions(&self) -> bool {
        !self.closed && size_marked(self.subscription)
    }

    /// The writing end of what the watcher follows.
    pub open spec fn source(&self) -> watch::Sender<PhysicalSize> {
        size_source(self.subscription)
    }

    /// The size that the watcher found when it last looked.
    pub open spec fn last_seen(&self) -> PhysicalSize {
        size_seen(self.subscription)
    }

    /// Creates a watcher that has yet to see the current size.
    ///
    /// The size can have been set before the application started to look.
    pub fn new(dimensions: &watch::Receiver<PhysicalSize>) -> (watcher: Self)
        ensures
            watcher.source() == size_source(*dimensions),
            watcher.owes_dimensions(),
            !watcher.is_closed(),
    {
        let mut subscription = dimensions.clone();
        mark_size_changed(&mut subscription);
        WindowDimensionsWatcher { subscription, closed: false }
    }

    /// The current inner dimensions of the window.
    ///
    /// This marks the current dimensions as seen for the purposes of other methods. To find out if
    /// the dimensions changed, use the other methods.
    pub fn dimensions(&mut self) -> (size: PhysicalSize)
        ensures
            final(self).source() == old(self).source(),
            final(self).is_closed() == old(self).is_closed(),
            !final(self).owes_dimensions(),
            size == final(self).last_seen(),
    {
        read_size(&mut self.subscription)
    }

    /// Reports the current dimensions if the poll found some that this watcher had not seen.
    ///
    /// Nothing can be reported any more once the window has been closed.
    pub fn dimensions_after<O, S>(&mut self, polled: Polled) -> (changed: Result<
        Option<PhysicalSize>,
        TwwError<O, S>,
    >)
        ensures
            final(self).source() == old(self).source(),
            final(self).is_closed() == (old(self).is_closed() || polled == Polled::Closed),
            polled == Polled::Pending ==> changed == Ok::<Option<PhysicalSize>, TwwError<O, S>>(None)
                && *final(self) == *old(self),
            polled == Polled::Closed ==> changed == Err::<Option<PhysicalSize>, TwwError<O, S>>(
                TwwError::TwwWindowClosed,
            ) && final(self).subscription == old(self).subscription,
            polled == Polled::Changed ==> changed == Ok::<Option<PhysicalSize>, TwwError<O, S>>(
                Some(final(self).last_seen()),
            ) && !final(self).owes_dimensions(),
    {
        match polled {
            Polled::Pending => Ok(None),
            Polled::Closed => {
                self.closed = true;
                Err(TwwError::TwwWindowClosed)
            },
            Polled::Changed => Ok(Some(self.dimensions())),
        }
    }

    /// Returns updated window dimensions if they have changed.
    ///
    /// [`TwwError::TwwWindowClosed`] is returned if the window has been closed, and from then on.
    /// A size that was not seen before is still reported first.
    pub fn changed_dimensions<O, S>(&mut self) -> (changed: Result<
        Option<PhysicalSize>,
        TwwError<O, S>,
    >)
        ensures
            old(self).is_closed() ==> changed is Err && *final(self) == *old(self),
            !old(self).is_closed() ==> exists|polled: Polled|
                {
                    &&& #[trigger] polls_size(old(self).subscription, polled)
                    &&& (changed matches Ok(Some(_))) == (polled == Polled::Changed)
                    &&& (changed matches Ok(None)) == (polled == Polled::Pending)
                    &&& (changed is Err) == (polled == Polled::Closed)
                },
            old(self).owes_dimensions() ==> changed matches Ok(Some(_)),
            changed matches Ok(Some(size)) ==> size == final(self).last_seen(),
            changed matches Ok(None) ==> *final(self) == *old(self),
            changed matches Err(error) ==> error is TwwWindowClosed,
            !(changed matches Ok(Some(_))) ==> final(self).subscription == old(self).subscription,
            final(self).is_closed() == (changed is Err),
            final(self).source() == old(self).source(),
            !final(self).owes_dimensions(),
    {
        if self.closed {
            return Err(TwwError::TwwWindowClosed);
        }
        let polled = poll_size(&mut self.subscription);
        assert(polls_size(old(self).subscription, polled));
        self.dimensions_after(polled)
    }
}

} // verus!
