//! The stages of the application's lifecycle, and how to follow them.
use futures::FutureExt;
use tokio::sync::watch;
use vstd::prelude::*;

use crate::channels::Polled;

verus! {

/// Describes the stage of the application lifecycle your application is currently in.
///
/// ## Rendering
///
/// In this stage you may create new windows, get window surfaces, and broadly use graphics
/// libraries to perform rendering. Whenever this stage is entered for any reason, any surfaces must
/// be created anew. A watcher reports two rendering stages in a row, which can happen if a
/// background stage was missed.
///
/// ## Background
///
/// In this stage you should cease rendering, as the results are not currently being displayed. Save
/// any data, since the platform may terminate the application without any warning. Being in the
/// background does not mean being minimized: a minimized application is still expected to render.
#[derive(Copy, Clone, Debug, PartialEq, Eq, PartialOrd, Ord, Hash, Structural)]
pub enum LifecycleStage {
    Rendering,
    Background,
}

/// The lifecycle can never be set again: all its writing ends are gone.
///
/// A running application keeps one for as long as the process lives.
#[derive(Copy, Clone, Debug, PartialEq, Eq, Structural)]
pub struct ContextDestroyed;

/// The stage that the channel was made with.
pub uninterp spec fn stage_made_with(lifecycle: watch::Sender<LifecycleStage>) -> LifecycleStage;

/// Makes a channel for the stage: `tokio::sync::watch::Sender::new`.
#[verifier::external_body]
fn new_stage_channel(stage: LifecycleStage) -> (lifecycle: watch::Sender<LifecycleStage>)
    ensures
        stage_made_with(lifecycle) == stage,
{
    watch::Sender::new(stage)
}

/// The lifecycle of an application that starts: it is in the background until it gets to render.
pub fn new_lifecycle() -> (lifecycle: watch::Sender<LifecycleStage>)
    ensures
        stage_made_with(lifecycle) == LifecycleStage::Background,
{
    new_stage_channel(LifecycleStage::Background)
}

/// Whether the subscription was marked as changed and has not caught up with the channel since.
///
/// This is about the subscription alone: it is set by `mark_changed` and cleared by every read
/// that catches up, whatever is sent on the channel meanwhile.
pub uninterp spec fn stage_marked(subscription: watch::Receiver<LifecycleStage>) -> bool;

/// The stage that the channel held at the version which the subscription has caught up with.
///
/// A subscription keeps the number of the last version that it saw; the channel may have moved on.
pub uninterp spec fn stage_seen(subscription: watch::Receiver<LifecycleStage>) -> LifecycleStage;

/// The writing end of the channel that the subscription reads.
pub uninterp spec fn stage_source(subscription: watch::Receiver<LifecycleStage>) -> watch::Sender<
    LifecycleStage,
>;

/// Subscribes to the lifecycle: `tokio::sync::watch::Sender::subscribe`.
///
/// The subscription reads the channel that is written here. Everything set so far counts as seen
/// by it, and it is not marked.
#[verifier::external_body]
fn subscribe_stage(lifecycle: &watch::Sender<LifecycleStage>) -> (subscription: watch::Receiver<
    LifecycleStage,
>)
    ensures
        stage_source(subscription) == *lifecycle,
        !stage_marked(subscription),
{
    lifecycle.subscribe()
}

/// Makes the subscription count the current stage as unseen:
/// `tokio::sync::watch::Receiver::mark_changed`.
#[verifier::external_body]
fn mark_stage_changed(subscription: &mut watch::Receiver<LifecycleStage>)
    ensures
        stage_source(*final(subscription)) == stage_source(*old(subscription)),
        stage_marked(*final(subscription)),
{
    subscription.mark_changed()
}

/// Reads the current stage and counts it as seen:
/// `tokio::sync::watch::Receiver::borrow_and_update`.
///
/// What is handed out is the stage of the version that the subscription has seen afterwards. Which
/// stage that is, is up to the writers.
#[verifier::external_body]
fn read_stage(subscription: &mut watch::Receiver<LifecycleStage>) -> (stage: LifecycleStage)
    ensures
        stage_source(*final(subscription)) == stage_source(*old(subscription)),
        !stage_marked(*final(subscription)),
        stage == stage_seen(*final(subscription)),
{
    *subscription.borrow_and_update()
}

/// Asks once for a stage that the subscription has not seen:
/// `tokio::sync::watch::Receiver::changed`, polled once by `futures::FutureExt::now_or_never`.
///
/// A marked subscription lags the channel until it catches up, and a change that has not been
/// seen is reported even where the channel is closed. (The channel counts what is sent in a word
/// less one bit; the claim leaves out a count that runs once round between two polls.) In all
/// cases the subscription has caught up afterwards; without a change it is left as it was.
/// Otherwise the answer is up to the writers.
#[verifier::external_body]
pub(crate) fn poll_stage(subscription: &mut watch::Receiver<LifecycleStage>) -> (polled: Polled)
    ensures
        stage_source(*final(subscription)) == stage_source(*old(subscription)),
        !stage_marked(*final(subscription)),
        stage_marked(*old(subscription)) ==> polled == Polled::Changed,
        polled != Polled::Changed ==> *final(subscription) == *old(subscription),
{
    match subscription.changed().now_or_never() {
        None => Polled::Pending,
        Some(Ok(())) => Polled::Changed,
        Some(Err(_)) => Polled::Closed,
    }
}

/// `polled` is an answer to one poll of the subscription's `tokio::sync::watch::Receiver::changed`.
pub closed spec fn polls_stage(
    subscription: watch::Receiver<LifecycleStage>,
    polled: Polled,
) -> bool {
    exists|same: &mut watch::Receiver<LifecycleStage>|
        *same == subscription && #[trigger] call_ensures(poll_stage, (same,), polled)
}

/// Asks once whether `stage` is the current one: `tokio::sync::watch::Receiver::wait_for`, polled
/// once by `futures::FutureExt::now_or_never`.
///
/// A stage is handed out exactly if it is `stage` that the subscription has seen afterwards: the
/// call puts every version it catches up with to the test. Which stage is current is up to the
/// writers.
#[verifier::external_body]
pub(crate) fn poll_for_stage(
    subscription: &mut watch::Receiver<LifecycleStage>,
    stage: LifecycleStage,
) -> (found: Option<Result<LifecycleStage, ContextDestroyed>>)
    ensures
        stage_source(*final(subscription)) == stage_source(*old(subscription)),
        !stage_marked(*final(subscription)),
        found matches Some(Ok(current)) ==> current == stage,
        (found matches Some(Ok(_))) == (stage_seen(*final(subscription)) == stage),
{
    match subscription.wait_for(move |current| is_stage(current, stage)).now_or_never() {
        None => None,
        Some(Ok(current)) => Some(Ok(*current)),
        Some(Err(_)) => Some(Err(ContextDestroyed)),
    }
}

/// `found` is an answer to one poll of the subscription's `tokio::sync::watch::Receiver::wait_for`
/// for the stage.
pub closed spec fn polls_for_stage(
    subscription: watch::Receiver<LifecycleStage>,
    stage: LifecycleStage,
    found: Option<Result<LifecycleStage, ContextDestroyed>>,
) -> bool {
    exists|same: &mut watch::Receiver<LifecycleStage>|
        *same == subscription && #[trigger] call_ensures(poll_for_stage, (same, stage), found)
}

/// An answer to a poll comes from a poll of that very subscription. One that is marked is answered
/// with a change.
pub(crate) proof fn a_stage_is_polled(
    subscription: watch::Receiver<LifecycleStage>,
    polled: Polled,
)
    requires
        polls_stage(subscription, polled),
    ensures
        exists|same: &mut watch::Receiver<LifecycleStage>|
            *same == subscription && #[trigger] call_ensures(poll_stage, (same,), polled),
        stage_marked(subscription) ==> polled == Polled::Changed,
{
}

/// An answer to a poll for a stage comes from a poll of that very subscription for that very stage.
/// No other stage is found.
pub(crate) proof fn a_stage_is_polled_for(
    subscription: watch::Receiver<LifecycleStage>,
    stage: LifecycleStage,
    found: Option<Result<LifecycleStage, ContextDestroyed>>,
)
    requires
        polls_for_stage(subscription, stage, found),
    ensures
        exists|same: &mut watch::Receiver<LifecycleStage>|
            *same == subscription && #[trigger] call_ensures(poll_for_stage, (same, stage), found),
        found matches Some(Ok(current)) ==> current == stage,
{
}

/// The test that a watcher waiting for `stage` puts to the current one.
pub fn is_stage(current: &LifecycleStage, stage: LifecycleStage) -> (same: bool)
    ensures
        same == (*current == stage),
{
    *current == stage
}

/// Follows the lifecycle of the application.
pub struct LifecycleWatcher {
    pub subscription: watch::Receiver<LifecycleStage>,
    /// Whether the last stage transition that the watcher found was marked as seen by reading the
    /// stage.
    pub read: bool,
}

impl LifecycleWatcher {
    /// Whether the last stage transition that the watcher found was marked as seen by reading the
    /// stage. The stage does not count as entered until it is set again.
    pub open spec fn has_read(&self) -> bool {
        self.read
    }

    /// Whether the watcher will report a stage at the next poll, come what may.
    pub open spec fn owes_stage(&self) -> bool {
        stage_marked(self.subscription)
    }

    /// The writing end of what the watcher follows.
    pub open spec fn source(&self) -> watch::Sender<LifecycleStage> {
        stage_source(self.subscription)
    }

    /// The stage that the watcher found when it last looked.
    pub open spec fn last_seen(&self) -> LifecycleStage {
        stage_seen(self.subscription)
    }

    /// Creates a watcher that has yet to see the current stage.
    ///
    /// The stage can have been set before the application started to look.
    pub fn new(lifecycle: &watch::Sender<LifecycleStage>) -> (watcher: Self)
        ensures
            watcher.source() == *lifecycle,
            watcher.owes_stage(),
            !watcher.has_read(),
    {
        let mut subscription = subscribe_stage(lifecycle);
        mark_stage_changed(&mut subscription);
        LifecycleWatcher { subscription, read: false }
    }

    /// The current stage of the application.
    ///
    /// This marks the last stage transition as seen for the purposes of other methods. To find out
    /// if the lifecycle changed or entered some stage, use the other methods.
    pub fn lifecycle(&mut self) -> (stage: LifecycleStage)
        ensures
            final(self).source() == old(self).source(),
            !final(self).owes_stage(),
            final(self).has_read(),
            stage == final(self).last_seen(),
    {
        self.read = true;
        read_stage(&mut self.subscription)
    }

    /// Reports the current stage if the poll found one that this watcher had not seen.
    ///
    /// Only whether something was set counts, not whether it differs from what was seen before: a
    /// stage that is set twice is reported twice.
    pub fn lifecycle_after(&mut self, polled: Polled) -> (entered: Result<
        Option<LifecycleStage>,
        ContextDestroyed,
    >)
        ensures
            final(self).source() == old(self).source(),
            polled == Polled::Pending ==> entered == Ok::<Option<LifecycleStage>, ContextDestroyed>(
                None,
            ) && *final(self) == *old(self),
            polled == Polled::Closed ==> entered == Err::<Option<LifecycleStage>, ContextDestroyed>(
                ContextDestroyed,
            ) && *final(self) == *old(self),
            polled == Polled::Changed ==> entered == Ok::<Option<LifecycleStage>, ContextDestroyed>(
                Some(final(self).last_seen()),
            ) && !final(self).owes_stage() && !final(self).has_read(),
    {
        match polled {
            Polled::Pending => Ok(None),
            Polled::Closed => Err(ContextDestroyed),
            Polled::Changed => {
                self.read = false;
                Ok(Some(read_stage(&mut self.subscription)))
            },
        }
    }

    /// Returns the current stage if it was not previously seen by this watcher.
    ///
    /// You will be notified even if the same stage is set twice. This is important since every time
    /// the rendering stage is entered, you must create your rendering resources anew.
    pub fn entered_lifecycle(&mut self) -> (entered: Result<
        Option<LifecycleStage>,
        ContextDestroyed,
    >)
        ensures
            exists|polled: Polled|
                {
                    &&& #[trigger] polls_stage(old(self).subscription, polled)
                    &&& (entered matches Ok(Some(_))) == (polled == Polled::Changed)
                    &&& (entered matches Ok(None)) == (polled == Polled::Pending)
                    &&& (entered is Err) == (polled == Polled::Closed)
                },
            old(self).owes_stage() ==> entered matches Ok(Some(_)),
            entered matches Ok(Some(stage)) ==> stage == final(self).last_seen()
                && !final(self).has_read(),
            !(entered matches Ok(Some(_))) ==> *final(self) == *old(self),
            final(self).source() == old(self).source(),
            !final(self).owes_stage(),
    {
        let polled = poll_stage(&mut self.subscription);
        assert(polls_stage(old(self).subscription, polled));
        self.lifecycle_after(polled)
    }

    /// Whether a watcher that was `before` and is `after` answers `entered` when asked if `stage`
    /// was entered.
    ///
    /// A stage is entered by the last transition that the watcher finds, unless reading the stage
    /// has marked that transition as seen. Asking does not: after another stage was asked for, the
    /// transition still counts.
    pub open spec fn answers_stage(
        before: Self,
        after: Self,
        stage: LifecycleStage,
        entered: Result<bool, ContextDestroyed>,
    ) -> bool {
        &&& after.source() == before.source()
        &&& !after.owes_stage()
        &&& entered == Ok::<bool, ContextDestroyed>(true) <==> !after.has_read()
            && after.last_seen() == stage
        &&& before.has_read() ==> exists|polled: Polled|
            {
                &&& #[trigger] polls_stage(before.subscription, polled)
                &&& match polled {
                    Polled::Pending => entered == Ok::<bool, ContextDestroyed>(false) && after
                        == before,
                    Polled::Closed => entered == Err::<bool, ContextDestroyed>(ContextDestroyed)
                        && after == before,
                    Polled::Changed => entered == Ok::<bool, ContextDestroyed>(
                        after.last_seen() == stage,
                    ) && !after.has_read(),
                }
            }
        &&& !before.has_read() ==> !after.has_read() && exists|
            found: Option<Result<LifecycleStage, ContextDestroyed>>,
        |
            {
                &&& #[trigger] polls_for_stage(before.subscription, stage, found)
                &&& entered == found_stage(found)
            }
    }

    /// Returns `true` if the application entered the given stage: it is the current one, and the
    /// transition to it was not marked as seen by [`LifecycleWatcher::lifecycle`].
    ///
    /// A stage that was set before you began to listen is not missed, and neither is one that is
    /// current while you ask for another. Either way [`LifecycleWatcher::entered_lifecycle`] does
    /// not report it any more.
    pub fn entered_stage(&mut self, stage: LifecycleStage) -> (entered: Result<
        bool,
        ContextDestroyed,
    >)
        ensures
            Self::answers_stage(*old(self), *final(self), stage, entered),
    {
        if self.read {
            let polled = poll_stage(&mut self.subscription);
            assert(polls_stage(old(self).subscription, polled));
            match self.lifecycle_after(polled) {
                Ok(None) => Ok(false),
                Ok(Some(current)) => Ok(is_stage(&current, stage)),
                Err(destroyed) => Err(destroyed),
            }
        } else {
            let found = poll_for_stage(&mut self.subscription, stage);
            assert(polls_for_stage(old(self).subscription, stage, found));
            stage_found(found)
        }
    }

    /// Whether one who waits for a stage waits for another transition first: the one that was found
    /// last was marked as seen.
    pub fn waits_for_change(&self) -> (change: bool)
        ensures
            change == self.has_read(),
    {
        self.read
    }

    /// Whether one who waits for `stage` is done after the transition to `entered`.
    pub fn stage_reached(&self, entered: LifecycleStage, stage: LifecycleStage) -> (done: bool)
        ensures
            done == (entered == stage),
    {
        is_stage(&entered, stage)
    }

    /// Returns `true` if the application entered the rendering stage.
    pub fn entered_rendering(&mut self) -> (entered: Result<bool, ContextDestroyed>)
        ensures
            Self::answers_stage(*old(self), *final(self), LifecycleStage::Rendering, entered),
    {
        self.entered_stage(LifecycleStage::Rendering)
    }

    /// Returns `true` if the application entered the background stage.
    pub fn entered_background(&mut self) -> (entered: Result<bool, ContextDestroyed>)
        ensures
            Self::answers_stage(*old(self), *final(self), LifecycleStage::Background, entered),
    {
        self.entered_stage(LifecycleStage::Background)
    }
}

/// After the stage was read, a stage counts as entered only if another transition is found.
pub proof fn a_stage_that_was_read_is_not_entered(
    before: LifecycleWatcher,
    after: LifecycleWatcher,
    stage: LifecycleStage,
    entered: Result<bool, ContextDestroyed>,
)
    requires
        before.has_read(),
        LifecycleWatcher::answers_stage(before, after, stage, entered),
    ensures
        entered == Ok::<bool, ContextDestroyed>(true) ==> polls_stage(
            before.subscription,
            Polled::Changed,
        ),
{
}

/// A transition that was not read is not used up by asking for a stage: whoever asks for the stage
/// that was found is told that it was entered, as long as no other is found.
pub proof fn asking_for_a_stage_misses_nothing(
    before: LifecycleWatcher,
    between: LifecycleWatcher,
    after: LifecycleWatcher,
    asked: LifecycleStage,
    first: Result<bool, ContextDestroyed>,
    second: Result<bool, ContextDestroyed>,
)
    requires
        !before.has_read(),
        LifecycleWatcher::answers_stage(before, between, asked, first),
        LifecycleWatcher::answers_stage(between, after, between.last_seen(), second),
        after.last_seen() == between.last_seen(),
    ensures
        second == Ok::<bool, ContextDestroyed>(true),
{
}

/// What it says about having entered a stage that a poll for it gave `found`.
pub open spec fn found_stage(found: Option<Result<LifecycleStage, ContextDestroyed>>) -> Result<
    bool,
    ContextDestroyed,
> {
    match found {
        None => Ok(false),
        Some(Ok(_)) => Ok(true),
        Some(Err(destroyed)) => Err(destroyed),
    }
}

/// What a poll for a stage says about having entered it.
pub fn stage_found(found: Option<Result<LifecycleStage, ContextDestroyed>>) -> (entered: Result<
    bool,
    ContextDestroyed,
>)
    ensures
        entered == found_stage(found),
{
    match found {
        None => Ok(false),
        Some(Ok(_)) => Ok(true),
        Some(Err(destroyed)) => Err(destroyed),
    }
}

} // verus!
