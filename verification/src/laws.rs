//! What callers can rely on, over one call or several.
//!
//! A law speaks of calls by what they are given and what they give: `call_ensures(f, args, result)`
//! says that `result` is an answer of `f` to `args`. A reference `x` to what a call changes stands
//! for both sides of the call: `*x` is the value before and `*final(x)` the value after.
use tokio::sync::{broadcast, watch, Notify};
use vstd::prelude::*;

use crate::application::{surface_created, window_created, window_event, WindowRequest};
use crate::channels::{
    poll_notified, polls_notified, receive, receives, subscribe_events, subscribes_to, try_receive,
    NotReceived, Polled,
};
use crate::dimensions::{
    polls_size, size_made_with, size_marked, size_seen, size_source, update_dimensions,
    PhysicalSize, WindowDimensionsWatcher,
};
use crate::error::{event_loop_finished, user_main_finished, TwwError, TwwFinishError};
use crate::lifecycle::{
    is_stage, new_lifecycle, polls_for_stage, polls_stage, stage_found, stage_made_with,
    stage_marked, stage_seen, stage_source, ContextDestroyed, LifecycleStage, LifecycleWatcher,
};
use crate::outlets::{close_made_with, Told};
use crate::runtime::{RuntimeAction, RuntimeCommand, RuntimeWorker};
use crate::tegui::{
    answer_action, line_feeds, paste_event, submission, with_line_feeds, ActionAnswer,
    ActionRequested, EguiRenderer, InputEvent, UiOutput,
};
use crate::window::{
    hears, received, total, tries, undelivered, Listening, Window, WindowEventListener,
    WindowKeyboardListener, WindowPublisher,
};
use crate::worker::{
    Publication, Reaction, WindowCommand, WindowEvent, WindowWorker, WorkerPhase,
};
use crate::COMMAND_CHANNEL_DEPTH;

verus! {

/// A worker is new, and it serves a command by what its state says of the command.
pub proof fn a_worker_serves_by_its_state<R, S, K, E>(
    received: Option<WindowCommand<R, S, K, E>>,
    reaction: Reaction<R, S, K, E>,
)
    ensures
        forall|worker: WindowWorker<R>| #[trigger]
            call_ensures(WindowWorker::<R>::new, (), worker) ==> {
                &&& worker@.phase == WorkerPhase::Open
                &&& worker@.waiting.len() == 0
                &&& !worker@.destroyed
                &&& worker@.wf()
            },
        forall|worker: WindowWorker<R>, phase: WorkerPhase| #[trigger]
            call_ensures(WindowWorker::<R>::phase, (&worker,), phase) ==> phase == worker@.phase,
        forall|worker: &mut WindowWorker<R>| #[trigger]
            call_ensures(WindowWorker::<R>::serve::<S, K, E>, (worker, received), reaction) ==> {
                &&& final(worker)@.wf()
                &&& final(worker)@ == worker@.after(received)
                &&& reaction.answered@ == worker@.answers(received)
                &&& reaction.surface == worker@.surface(received)
                &&& reaction.publication == worker@.publication(received)
                &&& reaction.event == worker@.event(received)
                &&& reaction.release_window == worker@.releases(received)
            },
{
}

/// An event that comes while the window is held is served at once: it is heard, it answers nobody
/// and it changes nothing about the worker, unless it is the one by which the window is gone.
pub proof fn events_leave_a_worker_as_it_is<R, S, K, E>(
    event: WindowEvent<K>,
    full: E,
    reaction: Reaction<R, S, K, E>,
)
    ensures
        forall|worker: &mut WindowWorker<R>| #[trigger]
            call_ensures(
                WindowWorker::<R>::serve::<S, K, E>,
                (worker, Some(WindowCommand::WinitWindowEvent { event, full })),
                reaction,
            ) && !(event is Destroyed) ==> {
                &&& final(worker)@ == worker@
                &&& reaction.answered@.len() == 0
                &&& reaction.surface is None
                &&& !reaction.release_window
                &&& reaction.event == if worker@.phase == WorkerPhase::Open {
                    Some(full)
                } else {
                    None
                }
            },
{
}

/// Whoever waits for a window to close is told when it is gone, with all that waited before and
/// after them, or at once if it is gone already. Nobody waits any more then.
pub proof fn whoever_waits_is_told<R, S, K, E>(
    responder: R,
    event: WindowEvent<K>,
    full: E,
    waited: Reaction<R, S, K, E>,
    gone: Reaction<R, S, K, E>,
)
    requires
        event is Destroyed,
    ensures
        forall|worker: &mut WindowWorker<R>, later: &mut WindowWorker<R>|
            #[trigger] call_ensures(
                WindowWorker::<R>::serve::<S, K, E>,
                (worker, Some(WindowCommand::WaitClose { responder })),
                waited,
            ) && #[trigger] call_ensures(
                WindowWorker::<R>::serve::<S, K, E>,
                (later, Some(WindowCommand::WinitWindowEvent { event, full })),
                gone,
            ) && *later == *final(worker) && worker@.wf() ==> {
                &&& waited.answered@ + gone.answered@ == worker@.waiting.push(responder)
                &&& waited.answered@.len() == if worker@.destroyed {
                    1nat
                } else {
                    0
                }
                &&& !waited.release_window
                &&& final(worker)@.phase == worker@.phase
                &&& final(later)@.waiting.len() == 0
                &&& final(later)@.destroyed
                &&& gone.release_window == (worker@.phase == WorkerPhase::Open)
                &&& gone.event == Some(full)
                &&& gone.publication is Closed
            },
{
    assert forall|worker: &mut WindowWorker<R>, later: &mut WindowWorker<R>|
        #[trigger] call_ensures(
            WindowWorker::<R>::serve::<S, K, E>,
            (worker, Some(WindowCommand::WaitClose { responder })),
            waited,
        ) && #[trigger] call_ensures(
            WindowWorker::<R>::serve::<S, K, E>,
            (later, Some(WindowCommand::WinitWindowEvent { event, full })),
            gone,
        ) && *later == *final(worker) && worker@.wf() implies waited.answered@ + gone.answered@
        == worker@.waiting.push(responder) by {
        assert(waited.answered@ + gone.answered@ =~= worker@.waiting.push(responder));
    }
}

/// A reported size is taken over, and it is news exactly if it differs in the width or in the
/// height. The same size reported again is no news.
pub proof fn a_reported_size_is_taken_over(reported: PhysicalSize, first: bool, again: bool)
    ensures
        forall|current: &mut PhysicalSize| #[trigger]
            call_ensures(update_dimensions, (current, reported), first) ==> {
                &&& final(current).width == reported.width
                &&& final(current).height == reported.height
                &&& first <==> current.width != reported.width || current.height != reported.height
            },
        forall|current: &mut PhysicalSize, later: &mut PhysicalSize|
            #[trigger] call_ensures(update_dimensions, (current, reported), first)
                && #[trigger] call_ensures(update_dimensions, (later, reported), again) && *later
                == *final(current) ==> !again,
{
}

/// A new watcher reports the current size at the first poll, come what may, and follows what the
/// subscription follows that it was made from.
pub proof fn a_new_watcher_reports_the_size<O, S>(
    dimensions: watch::Receiver<PhysicalSize>,
    made: WindowDimensionsWatcher,
    changed: Result<Option<PhysicalSize>, TwwError<O, S>>,
)
    requires
        call_ensures(WindowDimensionsWatcher::new, (&dimensions,), made),
    ensures
        size_source(made.subscription) == size_source(dimensions),
        size_marked(made.subscription),
        !made.closed,
        forall|watcher: &mut WindowDimensionsWatcher| #[trigger]
            call_ensures(
                WindowDimensionsWatcher::changed_dimensions::<O, S>,
                (watcher,),
                changed,
            ) && *watcher == made ==> {
                &&& changed matches Ok(Some(size))
                &&& size == size_seen(final(watcher).subscription)
            },
{
}

/// A poll for a new size says what it found: a change is reported with the size that was then seen,
/// without one nothing is reported, and only a closed window is an error.
pub proof fn a_size_is_reported_as_polled<O, S>(
    changed: Result<Option<PhysicalSize>, TwwError<O, S>>,
)
    ensures
        forall|watcher: &mut WindowDimensionsWatcher| #[trigger]
            call_ensures(
                WindowDimensionsWatcher::changed_dimensions::<O, S>,
                (watcher,),
                changed,
            ) ==> {
                &&& size_source(final(watcher).subscription) == size_source(watcher.subscription)
                &&& !size_marked(final(watcher).subscription) || watcher.closed
                &&& match changed {
                    Ok(Some(size)) => {
                        &&& !watcher.closed
                        &&& polls_size(watcher.subscription, Polled::Changed)
                        &&& size == size_seen(final(watcher).subscription)
                        &&& !final(watcher).closed
                    },
                    Ok(None) => {
                        &&& !watcher.closed
                        &&& polls_size(watcher.subscription, Polled::Pending)
                        &&& *final(watcher) == *watcher
                    },
                    Err(error) => {
                        &&& watcher.closed || polls_size(watcher.subscription, Polled::Closed)
                        &&& error is TwwWindowClosed
                        &&& final(watcher).closed
                        &&& final(watcher).subscription == watcher.subscription
                    },
                }
            },
{
}

/// Once a watcher has found the window closed, it says so at every later call, whether it reads the
/// size in between or not.
pub proof fn a_closed_window_stays_closed<O, S>(
    first: Result<Option<PhysicalSize>, TwwError<O, S>>,
    read: PhysicalSize,
    second: Result<Option<PhysicalSize>, TwwError<O, S>>,
)
    requires
        first is Err,
    ensures
        forall|watcher: &mut WindowDimensionsWatcher, later: &mut WindowDimensionsWatcher|
            #[trigger] call_ensures(
                WindowDimensionsWatcher::changed_dimensions::<O, S>,
                (watcher,),
                first,
            ) && #[trigger] call_ensures(
                WindowDimensionsWatcher::changed_dimensions::<O, S>,
                (later,),
                second,
            ) && *later == *final(watcher) ==> second is Err,
        forall|
            watcher: &mut WindowDimensionsWatcher,
            between: &mut WindowDimensionsWatcher,
            later: &mut WindowDimensionsWatcher,
        |
            #[trigger] call_ensures(
                WindowDimensionsWatcher::changed_dimensions::<O, S>,
                (watcher,),
                first,
            ) && #[trigger] call_ensures(
                WindowDimensionsWatcher::dimensions,
                (between,),
                read,
            ) && #[trigger] call_ensures(
                WindowDimensionsWatcher::changed_dimensions::<O, S>,
                (later,),
                second,
            ) && *between == *final(watcher) && *later == *final(between) ==> second is Err,
{
}

/// To read the size hands out what was then seen, and it is not owed any more. A watcher that waited
/// for a change reports the same as one that polled for it.
pub proof fn a_size_is_read_as_seen<O, S>(
    size: PhysicalSize,
    polled: Polled,
    changed: Result<Option<PhysicalSize>, TwwError<O, S>>,
)
    ensures
        forall|watcher: &mut WindowDimensionsWatcher| #[trigger]
            call_ensures(WindowDimensionsWatcher::dimensions, (watcher,), size) ==> {
                &&& size == size_seen(final(watcher).subscription)
                &&& size_source(final(watcher).subscription) == size_source(watcher.subscription)
                &&& !size_marked(final(watcher).subscription) || watcher.closed
                &&& final(watcher).closed == watcher.closed
            },
        forall|watcher: &mut WindowDimensionsWatcher| #[trigger]
            call_ensures(
                WindowDimensionsWatcher::dimensions_after::<O, S>,
                (watcher, polled),
                changed,
            ) ==> {
                &&& size_source(final(watcher).subscription) == size_source(watcher.subscription)
                &&& (changed matches Ok(Some(size)) && size == size_seen(
                    final(watcher).subscription,
                ) && final(watcher).closed == watcher.closed) <==> polled == Polled::Changed
                &&& (changed matches Ok(None) && *final(watcher) == *watcher) <==> polled
                    == Polled::Pending
                &&& (changed matches Err(error) && error is TwwWindowClosed
                    && final(watcher).closed) <==> polled == Polled::Closed
            },
{
}

/// The lifecycle of a new application is in the background, and a new watcher of it reports the
/// current stage at the first poll, come what may.
pub proof fn a_new_watcher_reports_the_stage(
    lifecycle: watch::Sender<LifecycleStage>,
    made: LifecycleWatcher,
    entered: Result<Option<LifecycleStage>, ContextDestroyed>,
)
    requires
        call_ensures(LifecycleWatcher::new, (&lifecycle,), made),
    ensures
        call_ensures(new_lifecycle, (), lifecycle) ==> stage_made_with(lifecycle)
            == LifecycleStage::Background,
        stage_source(made.subscription) == lifecycle,
        stage_marked(made.subscription),
        !made.read,
        forall|watcher: &mut LifecycleWatcher| #[trigger]
            call_ensures(LifecycleWatcher::entered_lifecycle, (watcher,), entered) && *watcher
                == made ==> {
                &&& entered matches Ok(Some(stage))
                &&& stage == stage_seen(final(watcher).subscription)
            },
{
}

/// A poll for a new stage says what it found: whatever was set is reported with the stage that was
/// then seen, without a change nothing is reported, and only a destroyed context is an error.
pub proof fn a_stage_is_reported_as_polled(
    entered: Result<Option<LifecycleStage>, ContextDestroyed>,
    polled: Polled,
)
    ensures
        forall|watcher: &mut LifecycleWatcher| #[trigger]
            call_ensures(LifecycleWatcher::entered_lifecycle, (watcher,), entered) ==> {
                &&& stage_source(final(watcher).subscription) == stage_source(watcher.subscription)
                &&& !stage_marked(final(watcher).subscription)
                &&& match entered {
                    Ok(Some(stage)) => {
                        &&& polls_stage(watcher.subscription, Polled::Changed)
                        &&& stage == stage_seen(final(watcher).subscription)
                        &&& !final(watcher).read
                    },
                    Ok(None) => {
                        &&& polls_stage(watcher.subscription, Polled::Pending)
                        &&& *final(watcher) == *watcher
                    },
                    Err(_) => {
                        &&& polls_stage(watcher.subscription, Polled::Closed)
                        &&& *final(watcher) == *watcher
                    },
                }
            },
        forall|watcher: &mut LifecycleWatcher| #[trigger]
            call_ensures(LifecycleWatcher::lifecycle_after, (watcher, polled), entered) ==> {
                &&& stage_source(final(watcher).subscription) == stage_source(watcher.subscription)
                &&& (entered matches Ok(Some(stage)) && stage == stage_seen(
                    final(watcher).subscription,
                ) && !final(watcher).read) <==> polled == Polled::Changed
                &&& (entered matches Ok(None) && *final(watcher) == *watcher) <==> polled
                    == Polled::Pending
                &&& (entered is Err && *final(watcher) == *watcher) <==> polled == Polled::Closed
            },
{
}

/// A stage that was read has been seen: after that, no stage is entered unless another transition
/// is found.
pub proof fn a_stage_is_seen_once_it_is_read(
    read: LifecycleStage,
    stage: LifecycleStage,
    entered: Result<bool, ContextDestroyed>,
)
    ensures
        forall|watcher: &mut LifecycleWatcher| #[trigger]
            call_ensures(LifecycleWatcher::lifecycle, (watcher,), read) ==> {
                &&& read == stage_seen(final(watcher).subscription)
                &&& stage_source(final(watcher).subscription) == stage_source(watcher.subscription)
                &&& !stage_marked(final(watcher).subscription)
                &&& final(watcher).read
            },
        forall|watcher: &mut LifecycleWatcher, later: &mut LifecycleWatcher|
            #[trigger] call_ensures(LifecycleWatcher::lifecycle, (watcher,), read)
                && #[trigger] call_ensures(
                LifecycleWatcher::entered_stage,
                (later, stage),
                entered,
            ) && *later == *final(watcher) ==> match entered {
                Ok(true) => {
                    &&& polls_stage(later.subscription, Polled::Changed)
                    &&& stage_seen(final(later).subscription) == stage
                    &&& !final(later).read
                },
                Ok(false) => {
                    ||| polls_stage(later.subscription, Polled::Pending) && *final(later) == *later
                    ||| {
                        &&& polls_stage(later.subscription, Polled::Changed)
                        &&& stage_seen(final(later).subscription) != stage
                        &&& !final(later).read
                    }
                },
                Err(_) => polls_stage(later.subscription, Polled::Closed) && *final(later) == *later,
            },
{
}

/// A stage that was not read is entered exactly if it is the one that is then seen. Only a destroyed
/// context is an error, and asking does not use the transition up: whoever asks next for the stage
/// that was seen is told that it was entered, as long as no other is found.
pub proof fn a_stage_that_was_not_read_is_entered(
    stage: LifecycleStage,
    entered: Result<bool, ContextDestroyed>,
    next: LifecycleStage,
    then_entered: Result<bool, ContextDestroyed>,
)
    ensures
        forall|watcher: &mut LifecycleWatcher| #[trigger]
            call_ensures(LifecycleWatcher::entered_stage, (watcher, stage), entered)
                && !watcher.read ==> {
                &&& stage_source(final(watcher).subscription) == stage_source(watcher.subscription)
                &&& !stage_marked(final(watcher).subscription)
                &&& !final(watcher).read
                &&& entered == Ok::<bool, ContextDestroyed>(true) <==> stage_seen(
                    final(watcher).subscription,
                ) == stage
                &&& entered == Ok::<bool, ContextDestroyed>(false) ==> polls_for_stage(
                    watcher.subscription,
                    stage,
                    None,
                )
                &&& entered is Err ==> polls_for_stage(
                    watcher.subscription,
                    stage,
                    Some(Err(ContextDestroyed)),
                )
            },
        forall|watcher: &mut LifecycleWatcher, later: &mut LifecycleWatcher|
            #[trigger] call_ensures(LifecycleWatcher::entered_stage, (watcher, stage), entered)
                && #[trigger] call_ensures(
                LifecycleWatcher::entered_stage,
                (later, next),
                then_entered,
            ) && !watcher.read && *later == *final(watcher) && next == stage_seen(
                later.subscription,
            ) && next == stage_seen(final(later).subscription) ==> then_entered == Ok::<
                bool,
                ContextDestroyed,
            >(true),
{
}

/// To ask for the rendering stage or the background stage is to ask for that stage.
pub proof fn shorthands_ask_for_their_stage(entered: Result<bool, ContextDestroyed>)
    ensures
        forall|watcher: &mut LifecycleWatcher| #[trigger]
            call_ensures(LifecycleWatcher::entered_rendering, (watcher,), entered) ==> {
                &&& entered == Ok::<bool, ContextDestroyed>(true) <==> !final(watcher).read
                    && stage_seen(final(watcher).subscription) == LifecycleStage::Rendering
                &&& LifecycleWatcher::answers_stage(
                    *watcher,
                    *final(watcher),
                    LifecycleStage::Rendering,
                    entered,
                )
            },
        forall|watcher: &mut LifecycleWatcher| #[trigger]
            call_ensures(LifecycleWatcher::entered_background, (watcher,), entered) ==> {
                &&& entered == Ok::<bool, ContextDestroyed>(true) <==> !final(watcher).read
                    && stage_seen(final(watcher).subscription) == LifecycleStage::Background
                &&& LifecycleWatcher::answers_stage(
                    *watcher,
                    *final(watcher),
                    LifecycleStage::Background,
                    entered,
                )
            },
{
}

/// One who waits for a stage waits for a change first exactly if the stage was read, and is done
/// exactly with the stage that they wait for. A stage is found or it is not, and a destroyed context
/// is neither.
pub proof fn a_wait_ends_with_its_stage(
    watcher: LifecycleWatcher,
    entered: LifecycleStage,
    stage: LifecycleStage,
    answer: bool,
    found: Option<Result<LifecycleStage, ContextDestroyed>>,
    said: Result<bool, ContextDestroyed>,
)
    ensures
        call_ensures(LifecycleWatcher::waits_for_change, (&watcher,), answer) ==> answer
            == watcher.read,
        call_ensures(LifecycleWatcher::stage_reached, (&watcher, entered, stage), answer) ==> (
        answer <==> entered == stage),
        call_ensures(is_stage, (&entered, stage), answer) ==> (answer <==> entered == stage),
        call_ensures(stage_found, (found,), said) ==> {
            &&& said == Ok::<bool, ContextDestroyed>(true) <==> (found matches Some(Ok(_)))
            &&& said == Ok::<bool, ContextDestroyed>(false) <==> found is None
            &&& said is Err <==> (found matches Some(Err(_)))
        },
{
}

/// A new window and its worker share fresh channels: nothing was put to them, the size and the
/// request to close are set as they start, and each event channel is made to the common depth.
pub proof fn a_new_window_shares_fresh_channels<K, E>(
    inner_size: PhysicalSize,
    opened: (Window<K, E>, WindowPublisher<K, E>),
)
    requires
        call_ensures(Window::<K, E>::new_runtime, (inner_size,), opened),
    ensures
        opened.1.redraw_requested.channel() == opened.0.redraw_requested,
        opened.1.dimensions.channel() == Some(size_source(opened.0.dimensions)),
        opened.1.close_requested.channel() == opened.0.close_requested,
        opened.1.keyboard_events.channel() == opened.0.keyboard_events,
        opened.1.window_events.channel() == opened.0.window_events,
        opened.1.redraw_requested.given() == 0,
        opened.1.dimensions.put().len() == 0,
        opened.1.close_requested.put().len() == 0,
        opened.1.keyboard_events.put().len() == 0,
        opened.1.window_events.put().len() == 0,
        opened.1.told@.len() == 0,
        size_made_with(size_source(opened.0.dimensions)) == inner_size,
        !close_made_with(opened.0.close_requested),
        call_ensures(Notify::new, (), *opened.0.redraw_requested),
        call_ensures(
            broadcast::Sender::<K>::new,
            (COMMAND_CHANNEL_DEPTH,),
            opened.0.keyboard_events,
        ),
        call_ensures(
            broadcast::Sender::<E>::new,
            (COMMAND_CHANNEL_DEPTH,),
            opened.0.window_events,
        ),
{
}

/// A worker that publishes gives one permit for a request to redraw, sends a key event once, sets
/// each reported size as long as there is a writing end, sets the request to close and never takes
/// it back, and lets go of the size when the window is gone. Each of these does that one thing alone.
pub proof fn a_publication_does_one_thing<K, E>(
    publication: Publication<K>,
    undelivered: Option<K>,
)
    ensures
        forall|publisher: &mut WindowPublisher<K, E>| #[trigger]
            call_ensures(WindowPublisher::<K, E>::publish, (publisher, publication), undelivered)
                ==> {
                let before = *publisher;
                let after = *final(publisher);
                &&& after.redraw_requested.given() == if publication is Redraw {
                    before.redraw_requested.given() + 1
                } else {
                    before.redraw_requested.given()
                }
                &&& after.dimensions.put() == match publication {
                    Publication::Dimensions {
                        dimensions,
                    } if before.dimensions.channel() is Some => {
                        before.dimensions.put().push(dimensions)
                    },
                    _ => before.dimensions.put(),
                }
                &&& after.dimensions.channel() == if publication is Closed {
                    None
                } else {
                    before.dimensions.channel()
                }
                &&& after.close_requested.put() == if publication is CloseRequested {
                    before.close_requested.put().push(true)
                } else {
                    before.close_requested.put()
                }
                &&& after.keyboard_events.put() == match publication {
                    Publication::Key { event } => before.keyboard_events.put().push(event),
                    _ => before.keyboard_events.put(),
                }
                &&& after.window_events.put() == before.window_events.put()
                &&& after.told@ == before.told@.push(Told::Publication { publication })
            },
{
    assert forall|publisher: &mut WindowPublisher<K, E>| #[trigger]
        call_ensures(
            WindowPublisher::<K, E>::publish,
            (publisher, publication),
            undelivered,
        ) implies {
        let before = *publisher;
        let after = *final(publisher);
        &&& after.dimensions.put() =~= match publication {
            Publication::Dimensions { dimensions } if before.dimensions.channel() is Some => {
                before.dimensions.put().push(dimensions)
            },
            _ => before.dimensions.put(),
        }
        &&& after.close_requested.put() =~= if publication is CloseRequested {
            before.close_requested.put().push(true)
        } else {
            before.close_requested.put()
        }
        &&& after.keyboard_events.put() =~= match publication {
            Publication::Key { event } => before.keyboard_events.put().push(event),
            _ => before.keyboard_events.put(),
        }
    } by {
    }
}

/// A worker that publishes takes nothing from the channels, whatever it publishes: it hands none of
/// them out, so requests to redraw are there until a holder of the window takes them up.
pub proof fn a_worker_takes_nothing<K, E>(
    publication: Publication<K>,
    undelivered: Option<K>,
    event: E,
    unheard: Option<E>,
    told: Option<E>,
)
    ensures
        forall|publisher: &mut WindowPublisher<K, E>|
            (#[trigger] call_ensures(
                WindowPublisher::<K, E>::publish,
                (publisher, publication),
                undelivered,
            )) ==> publisher.redraw_requested.given() <= final(publisher).redraw_requested.given()
                && same_hands(*publisher, *final(publisher)),
        forall|publisher: &mut WindowPublisher<K, E>|
            (#[trigger] call_ensures(
                WindowPublisher::<K, E>::announce,
                (publisher, event),
                unheard,
            )) ==> publisher.redraw_requested.given() == final(publisher).redraw_requested.given()
                && same_hands(*publisher, *final(publisher)),
        forall|publisher: &mut WindowPublisher<K, E>|
            (#[trigger] call_ensures(
                WindowPublisher::<K, E>::tell,
                (publisher, publication, told),
                (),
            )) ==> publisher.redraw_requested.given() <= final(publisher).redraw_requested.given()
                && same_hands(*publisher, *final(publisher)),
{
}

/// Whether the channels are the same and no further one was handed out.
pub open spec fn same_hands<K, E>(
    before: WindowPublisher<K, E>,
    after: WindowPublisher<K, E>,
) -> bool {
    &&& after.redraw_requested.channel() == before.redraw_requested.channel()
    &&& after.redraw_requested.handed() == before.redraw_requested.handed()
    &&& after.close_requested.channel() == before.close_requested.channel()
    &&& after.close_requested.handed() == before.close_requested.handed()
    &&& after.keyboard_events.channel() == before.keyboard_events.channel()
    &&& after.keyboard_events.handed() == before.keyboard_events.handed()
    &&& after.window_events.channel() == before.window_events.channel()
    &&& after.window_events.handed() == before.window_events.handed()
}

/// An event is handed back exactly if the channel gave it back, and then it is that very event. Of
/// what is no key event, nothing comes back.
pub proof fn what_nobody_listens_for_comes_back<T, K, E>(
    sent: Result<usize, T>,
    back: Option<T>,
    publication: Publication<K>,
    unpublished: Option<K>,
    event: E,
    unheard: Option<E>,
)
    ensures
        call_ensures(undelivered::<T>, (sent,), back) ==> match sent {
            Ok(_) => back is None,
            Err(returned) => back == Some(returned),
        },
        forall|publisher: &mut WindowPublisher<K, E>| #[trigger]
            call_ensures(WindowPublisher::<K, E>::publish, (publisher, publication), unpublished)
                ==> match publication {
                Publication::Key { event } => {
                    let answers = final(publisher).keyboard_events.answers();
                    &&& answers.len() == publisher.keyboard_events.answers().len() + 1
                    &&& unpublished is None <==> answers.last() is Ok
                    &&& unpublished is Some ==> unpublished == Some(event)
                },
                _ => unpublished is None,
            },
        forall|publisher: &mut WindowPublisher<K, E>| #[trigger]
            call_ensures(WindowPublisher::<K, E>::announce, (publisher, event), unheard) ==> {
                let answers = final(publisher).window_events.answers();
                &&& answers.len() == publisher.window_events.answers().len() + 1
                &&& unheard is None <==> answers.last() is Ok
                &&& unheard is Some ==> unheard == Some(event)
            },
{
}

/// To announce an event puts that event to the channel for all events and nothing to any other.
pub proof fn an_event_is_announced_alone<K, E>(event: E, unheard: Option<E>)
    ensures
        forall|publisher: &mut WindowPublisher<K, E>| #[trigger]
            call_ensures(WindowPublisher::<K, E>::announce, (publisher, event), unheard) ==> {
                let before = *publisher;
                let after = *final(publisher);
                &&& after.window_events.put() == before.window_events.put().push(event)
                &&& after.redraw_requested.given() == before.redraw_requested.given()
                &&& after.dimensions.put() == before.dimensions.put()
                &&& after.dimensions.channel() == before.dimensions.channel()
                &&& after.close_requested.put() == before.close_requested.put()
                &&& after.keyboard_events.put() == before.keyboard_events.put()
                &&& after.told@ == before.told@.push(Told::Event { event })
            },
{
    assert forall|publisher: &mut WindowPublisher<K, E>| #[trigger]
        call_ensures(WindowPublisher::<K, E>::announce, (publisher, event), unheard) implies {
        let before = *publisher;
        let after = *final(publisher);
        &&& after.dimensions.put() =~= before.dimensions.put()
        &&& after.close_requested.put() =~= before.close_requested.put()
        &&& after.keyboard_events.put() =~= before.keyboard_events.put()
    } by {
    }
}

/// To tell of a publication and an event is to publish the one and then to announce the other. To
/// tell of a publication alone is to publish it.
pub proof fn to_tell_is_to_publish_and_then_to_announce<K, E>(
    publication: Publication<K>,
    unpublished: Option<K>,
    event: E,
    unheard: Option<E>,
)
    ensures
        forall|
            told: &mut WindowPublisher<K, E>,
            published: &mut WindowPublisher<K, E>,
            announced: &mut WindowPublisher<K, E>,
        |
            #[trigger] call_ensures(
                WindowPublisher::<K, E>::tell,
                (told, publication, Some(event)),
                (),
            ) && #[trigger] call_ensures(
                WindowPublisher::<K, E>::publish,
                (published, publication),
                unpublished,
            ) && #[trigger] call_ensures(
                WindowPublisher::<K, E>::announce,
                (announced, event),
                unheard,
            ) && *published == *told && *announced == *final(published) ==> same_records(
                *final(told),
                *final(announced),
            ),
        forall|told: &mut WindowPublisher<K, E>, published: &mut WindowPublisher<K, E>|
            #[trigger] call_ensures(
                WindowPublisher::<K, E>::tell,
                (told, publication, None),
                (),
            ) && #[trigger] call_ensures(
                WindowPublisher::<K, E>::publish,
                (published, publication),
                unpublished,
            ) && *published == *told ==> same_records(*final(told), *final(published)),
{
    an_event_is_announced_alone::<K, E>(event, unheard);
    a_publication_does_one_thing::<K, E>(publication, unpublished);
}

/// Whether the same was put to the channels, in the same order.
pub open spec fn same_records<K, E>(
    one: WindowPublisher<K, E>,
    other: WindowPublisher<K, E>,
) -> bool {
    &&& one.redraw_requested.given() == other.redraw_requested.given()
    &&& one.dimensions.put() == other.dimensions.put()
    &&& one.dimensions.channel() == other.dimensions.channel()
    &&& one.close_requested.put() == other.close_requested.put()
    &&& one.keyboard_events.put() == other.keyboard_events.put()
    &&& one.window_events.put() == other.window_events.put()
    &&& one.told@ == other.told@
}

/// What a holder of a window is told or gets comes from the channels of that window: a redraw is
/// requested exactly if the poll of its signal took a permit, and whoever follows its size or
/// listens to its events is subscribed to them.
pub proof fn a_holder_follows_its_own_window<K, E>(
    window: Window<K, E>,
    requested: bool,
    watcher: WindowDimensionsWatcher,
    keys: WindowKeyboardListener<K>,
    all: WindowEventListener<E>,
)
    ensures
        call_ensures(Window::<K, E>::is_redraw_requested, (&window,), requested)
            ==> polls_notified(
            window.redraw_requested,
            if requested {
                Some(())
            } else {
                None
            },
        ),
        call_ensures(Window::<K, E>::dimensions_watcher, (&window,), watcher) ==> {
            &&& size_source(watcher.subscription) == size_source(window.dimensions)
            &&& size_marked(watcher.subscription)
            &&& !watcher.closed
        },
        call_ensures(Window::<K, E>::keyboard_listener, (&window,), keys) ==> subscribes_to(
            window.keyboard_events,
            keys.subscription,
        ),
        call_ensures(Window::<K, E>::window_listener, (&window,), all) ==> subscribes_to(
            window.window_events,
            all.subscription,
        ),
{
    if call_ensures(Window::<K, E>::is_redraw_requested, (&window,), requested) {
        let notified = choose|notified: Option<()>|
            #[trigger] polls_notified(window.redraw_requested, notified) && requested == (
            notified is Some);
        assert(notified == if requested {
            Some(())
        } else {
            None
        });
    }
}

/// What is said of a stream of events, or of a signal, comes from a call on it.
pub(crate) proof fn answers_come_from_calls<T: Clone>(
    events: broadcast::Sender<T>,
    subscription: broadcast::Receiver<T>,
    after: broadcast::Receiver<T>,
    outcome: Result<T, NotReceived>,
    signal: std::sync::Arc<Notify>,
    notified: Option<()>,
)
    ensures
        subscribes_to(events, subscription) ==> call_ensures(
            subscribe_events::<T>,
            (&events,),
            subscription,
        ),
        polls_notified(signal, notified) ==> call_ensures(poll_notified, (&signal,), notified),
        receives(subscription, after, outcome) ==> exists|same: &mut broadcast::Receiver<T>|
            {
                &&& *same == subscription
                &&& *final(same) == after
                &&& #[trigger] call_ensures(try_receive::<T>, (same,), outcome)
            },
{
    if receives(subscription, after, outcome) {
        let same = choose|same: &mut broadcast::Receiver<T>|
            *same == subscription && #[trigger] call_ensures(
                receive::<T>,
                (same,),
                (outcome, Ghost(after)),
            );
        assert(call_ensures(receive::<T>, (same,), (outcome, Ghost(after))));
    }
}

/// An event that was received is handed on, whatever kind of event it is. Where none was, there is
/// none, and missed events make a listener try again.
pub proof fn what_is_received_is_handed_on<T>(
    outcome: Result<T, NotReceived>,
    listening: Listening<T>,
)
    requires
        call_ensures(received::<T>, (outcome,), listening),
    ensures
        outcome matches Ok(event) ==> listening == (Listening::Event { event }),
        outcome matches Err(NotReceived::Lagged { missed }) ==> listening == (
        Listening::<T>::Again { missed }),
        outcome == Err::<T, NotReceived>(NotReceived::Empty) ==> listening is Nothing,
        outcome == Err::<T, NotReceived>(NotReceived::Closed) ==> listening is Nothing,
{
}

/// What is missed over several stretches is what is missed in each of them.
pub proof fn missed_events_add_up(first: Seq<u64>, second: Seq<u64>, one: u64)
    ensures
        total(seq![one]) == one,
        total(first + second) == total(first) + total(second),
    decreases second.len(),
{
    reveal_with_fuel(total, 2);
    assert(seq![one].drop_last().len() == 0);
    if second.len() == 0 {
        assert(first + second =~= first);
    } else {
        missed_events_add_up(first, second.drop_last(), one);
        assert((first + second).drop_last() =~= first + second.drop_last());
        assert((first + second).last() == second.last());
    }
}

/// Whether a subscription that was `before` and is `after` was asked over and over, each time where
/// it was left, as long as events were missed, and the last answer was `outcome`.
pub open spec fn asked_until<T: Clone>(
    before: broadcast::Receiver<T>,
    after: broadcast::Receiver<T>,
    states: Seq<broadcast::Receiver<T>>,
    missed: Seq<u64>,
    outcome: Result<T, NotReceived>,
) -> bool {
    &&& states.len() == missed.len() + 2
    &&& states[0] == before
    &&& states[states.len() - 1] == after
    &&& receives(states[states.len() - 2], after, outcome)
    &&& forall|i: int|
        0 <= i < missed.len() ==> receives(
            states[i],
            states[i + 1],
            Err(NotReceived::Lagged { missed: #[trigger] missed[i] }),
        )
}

/// A listener gets what its subscription gives: an event that was received is handed out, and none
/// is only where the subscription had none, or had missed more than a stream can count. No event is
/// received that is not handed out.
pub proof fn a_listener_gets_what_was_received<K: Clone, E: Clone>(
    key: Option<K>,
    event: Option<E>,
)
    ensures
        forall|listener: &mut WindowKeyboardListener<K>| #[trigger]
            call_ensures(WindowKeyboardListener::<K>::event, (listener,), key) ==> exists|
                states: Seq<broadcast::Receiver<K>>,
                missed: Seq<u64>,
                outcome: Result<K, NotReceived>,
            |
                {
                    &&& #[trigger] asked_until(
                        listener.subscription,
                        final(listener).subscription,
                        states,
                        missed,
                        outcome,
                    )
                    &&& match outcome {
                        Ok(received) => key == Some(received),
                        Err(NotReceived::Lagged { missed: more }) => key is None && total(
                            missed.push(more),
                        ) > u64::MAX,
                        Err(_) => key is None,
                    }
                },
        forall|listener: &mut WindowEventListener<E>| #[trigger]
            call_ensures(WindowEventListener::<E>::event, (listener,), event) ==> exists|
                states: Seq<broadcast::Receiver<E>>,
                missed: Seq<u64>,
                outcome: Result<E, NotReceived>,
            |
                {
                    &&& #[trigger] asked_until(
                        listener.subscription,
                        final(listener).subscription,
                        states,
                        missed,
                        outcome,
                    )
                    &&& match outcome {
                        Ok(received) => event == Some(received),
                        Err(NotReceived::Lagged { missed: more }) => event is None && total(
                            missed.push(more),
                        ) > u64::MAX,
                        Err(_) => event is None,
                    }
                },
{
    lemma_heard_was_received::<K>();
    lemma_heard_was_received::<E>();
    assert forall|listener: &mut WindowKeyboardListener<K>| #[trigger]
        call_ensures(WindowKeyboardListener::<K>::event, (listener,), key) implies hears(
        listener.subscription,
        final(listener).subscription,
        key,
    ) by {
    }
    assert forall|listener: &mut WindowEventListener<E>| #[trigger]
        call_ensures(WindowEventListener::<E>::event, (listener,), event) implies hears(
        listener.subscription,
        final(listener).subscription,
        event,
    ) by {
    }
}

/// What a listener hears was received.
proof fn lemma_heard_was_received<T: Clone>()
    ensures
        forall|before: broadcast::Receiver<T>, after: broadcast::Receiver<T>, event: Option<T>|
            #[trigger] hears(before, after, event) ==> exists|
                states: Seq<broadcast::Receiver<T>>,
                missed: Seq<u64>,
                outcome: Result<T, NotReceived>,
            |
                {
                    &&& #[trigger] asked_until(before, after, states, missed, outcome)
                    &&& match outcome {
                        Ok(received) => event == Some(received),
                        Err(NotReceived::Lagged { missed: more }) => event is None && total(
                            missed.push(more),
                        ) > u64::MAX,
                        Err(_) => event is None,
                    }
                },
{
    assert forall|before: broadcast::Receiver<T>, after: broadcast::Receiver<T>, event: Option<T>|
        #[trigger] hears(before, after, event) implies exists|
            states: Seq<broadcast::Receiver<T>>,
            missed: Seq<u64>,
            outcome: Result<T, NotReceived>,
        |
            {
                &&& #[trigger] asked_until(before, after, states, missed, outcome)
                &&& match outcome {
                    Ok(received) => event == Some(received),
                    Err(NotReceived::Lagged { missed: more }) => event is None && total(
                        missed.push(more),
                    ) > u64::MAX,
                    Err(_) => event is None,
                }
            } by {
        let (states, missed, outcome) = choose|
            states: Seq<broadcast::Receiver<T>>,
            missed: Seq<u64>,
            outcome: Result<T, NotReceived>,
        |
            {
                &&& #[trigger] tries(states, missed, outcome)
                &&& states.first() == before
                &&& states.last() == after
                &&& outcome matches Ok(received) ==> event == Some(received)
                &&& outcome is Err ==> event is None
            };
        assert(asked_until(before, after, states, missed, outcome));
        if let Err(NotReceived::Lagged { missed: more }) = outcome {
            assert(missed.push(more).drop_last() =~= missed);
        }
    }
}

/// An event of a window reaches the worker that was registered for the window, unchanged: it is made
/// a command for that window, and the command is delivered along the way that was registered last.
pub proof fn an_event_reaches_the_worker_of_its_window<Q, W, R, S, K, E>(
    window_id: u64,
    event: WindowEvent<K>,
    full: E,
    command: RuntimeCommand<Q, W, WindowCommand<R, S, K, E>>,
    commander: u64,
    action: RuntimeAction<Q, W, u64, WindowCommand<R, S, K, E>>,
)
    requires
        call_ensures(
            window_event::<Q, W, R, S, K, E>,
            (window_id, event, full),
            command,
        ),
    ensures
        forall|registered: &mut RuntimeWorker<u64>, served: &mut RuntimeWorker<u64>|
            #[trigger] call_ensures(
                RuntimeWorker::<u64>::register,
                (registered, window_id, commander),
                (),
            ) && #[trigger] call_ensures(
                RuntimeWorker::<u64>::serve::<Q, W, R, S, K, E>,
                (served, command),
                action,
            ) && *served == *final(registered) ==> match action {
                RuntimeAction::Deliver { commander: way, command: delivered } => {
                    &&& way == commander
                    &&& delivered matches WindowCommand::WinitWindowEvent {
                        event: passed,
                        full: whole,
                    }
                    &&& passed == event
                    &&& whole == full
                },
                RuntimeAction::OpenWindow { .. } => false,
            },
{
}

/// To register a window makes it known and changes nothing about any other. A new worker knows none.
pub proof fn a_registered_window_is_known<H>(
    window_id: u64,
    commander: H,
    other: u64,
    known: bool,
    made: RuntimeWorker<H>,
)
    ensures
        call_ensures(RuntimeWorker::<H>::new, (), made) ==> !made.windows@.contains_key(other),
        call_ensures(RuntimeWorker::<H>::is_registered, (&made, other), known) ==> (known
            <==> made.windows@.contains_key(other)),
        forall|worker: &mut RuntimeWorker<H>| #[trigger]
            call_ensures(RuntimeWorker::<H>::register, (worker, window_id, commander), ()) ==> {
                let before = worker.windows@;
                let after = final(worker).windows@;
                &&& after.contains_key(window_id)
                &&& after[window_id] == commander
                &&& other != window_id ==> (after.contains_key(other) <==> before.contains_key(
                    other,
                ))
                &&& other != window_id && before.contains_key(other) ==> after[other]
                    == before[other]
            },
{
}

/// A command goes to the worker of its window as it is, and the window is forgotten exactly with the
/// event that it is destroyed. Nothing changes about any other window. A window to be registered is
/// handed on with the one that asked for it, and changes nothing yet.
pub proof fn a_command_is_delivered_as_it_is<Q, W, H: Clone, R, S, K, E>(
    window_id: u64,
    command: WindowCommand<R, S, K, E>,
    other: u64,
    responder: Q,
    window: W,
    action: RuntimeAction<Q, W, H, WindowCommand<R, S, K, E>>,
)
    ensures
        forall|worker: &mut RuntimeWorker<H>| #[trigger]
            call_ensures(
                RuntimeWorker::<H>::serve::<Q, W, R, S, K, E>,
                (worker, RuntimeCommand::WindowCommand { window_id, command }),
                action,
            ) && worker.windows@.contains_key(window_id) ==> {
                let before = worker.windows@;
                let after = final(worker).windows@;
                &&& action matches RuntimeAction::Deliver { commander, command: delivered }
                &&& cloned(before[window_id], commander)
                &&& delivered == command
                &&& after.contains_key(window_id) <==> !(
                command matches WindowCommand::WinitWindowEvent { event, .. } && event is Destroyed)
                &&& after.contains_key(window_id) ==> after[window_id] == before[window_id]
                &&& other != window_id ==> (after.contains_key(other) <==> before.contains_key(
                    other,
                ))
                &&& other != window_id && before.contains_key(other) ==> after[other]
                    == before[other]
            },
        forall|worker: &mut RuntimeWorker<H>| #[trigger]
            call_ensures(
                RuntimeWorker::<H>::serve::<Q, W, R, S, K, E>,
                (worker, RuntimeCommand::RegisterWindow { responder, window }),
                action,
            ) ==> {
                &&& action matches RuntimeAction::OpenWindow { responder: asker, window: opened }
                &&& asker == responder
                &&& opened == window
                &&& final(worker).windows@ == worker.windows@
            },
{
}

/// Whoever asks for a window or a surface gets it if there is one, and otherwise the error of the
/// layer that refused it.
pub proof fn a_request_is_granted_or_refused<Q, W, C, O, S, F>(
    responder: Q,
    created: Result<W, O>,
    request: WindowRequest<Q, W, C, TwwError<O, S>>,
    surface: Result<F, S>,
    answer: Result<F, TwwError<O, S>>,
)
    ensures
        call_ensures(window_created::<Q, W, C, O, S>, (responder, created), request)
            ==> match request {
            WindowRequest::Register { command } => {
                &&& command matches RuntimeCommand::RegisterWindow { responder: asker, window }
                &&& asker == responder
                &&& created == Ok::<W, O>(window)
            },
            WindowRequest::Refuse { responder: asker, error } => {
                &&& asker == responder
                &&& error matches TwwError::Os { source }
                &&& created == Err::<W, O>(source)
            },
        },
        call_ensures(surface_created::<F, O, S>, (surface,), answer) ==> match answer {
            Ok(granted) => surface == Ok::<F, S>(granted),
            Err(error) => {
                &&& error matches TwwError::CreateWindowSurface { source }
                &&& surface == Err::<F, S>(source)
            },
        },
{
}

/// A run ends with the result of the user's main, and each way in which it fails is told apart: the
/// event loop failed, the user's main failed, or it panicked.
pub proof fn a_run_ends_as_it_went<T, E, O, S, L, M, D>(
    run: Result<(), L>,
    main_result: M,
    waiting: Result<M, TwwFinishError<E, O, S, L, M>>,
    received: Result<Result<T, E>, D>,
    finished: Result<T, TwwFinishError<E, O, S, L, M>>,
)
    ensures
        call_ensures(event_loop_finished::<E, O, S, L, M>, (run, main_result), waiting)
            ==> match waiting {
            Ok(place) => run is Ok && place == main_result,
            Err(error) => {
                &&& error matches TwwFinishError::WinitEventLoop { source, main_result: place }
                &&& run == Err::<(), L>(source)
                &&& place == main_result
            },
        },
        call_ensures(user_main_finished::<T, E, O, S, L, M, D>, (received,), finished)
            ==> match finished {
            Ok(value) => received matches Ok(Ok(returned)) && returned == value,
            Err(TwwFinishError::UserMainError { source }) => received matches Ok(Err(returned))
                && returned == source,
            Err(TwwFinishError::UserMainPanic) => received is Err,
            Err(_) => false,
        },
{
}

/// The message of an error names its kind, and then its source in full where it has one.
pub proof fn a_message_names_kind_and_source<E, O, S, L, M>(
    error: TwwError<O, S>,
    failure: TwwFinishError<E, O, S, L, M>,
    source: &str,
    text: String,
)
    ensures
        call_ensures(TwwError::<O, S>::message, (&error, source), text) ==> match error {
            TwwError::Os { .. } => text@ == "OS error: "@ + source@,
            TwwError::TwwWindowClosed => text@ == "tww window closed"@,
            TwwError::CreateWindowSurface { .. } => text@ == "create window surface error: "@
                + source@,
        },
        call_ensures(TwwFinishError::<E, O, S, L, M>::message, (&failure, source), text)
            ==> match failure {
            TwwFinishError::Tww { .. } => text@ == "tww error: "@ + source@,
            TwwFinishError::WinitEventLoop { .. } => text@ == "winit event loop error: "@ + source@,
            TwwFinishError::UserMainError { .. } => text@ == "user main error: "@ + source@,
            TwwFinishError::UserMainPanic => text@ == "user main panic"@,
        },
{
}

/// To cut and to copy reach the user interface, to paste reads the clipboard, and nothing else is
/// asked of it.
pub proof fn requests_are_told_apart(action: ActionRequested, answer: ActionAnswer)
    requires
        call_ensures(answer_action, (action,), answer),
    ensures
        answer is ReadClipboard <==> action == ActionRequested::Paste,
        answer is Nothing <==> action == ActionRequested::Screenshot,
        (answer matches ActionAnswer::Event { event } && event is Cut) <==> action
            == ActionRequested::Cut,
        (answer matches ActionAnswer::Event { event } && event is Copy) <==> action
            == ActionRequested::Copy,
{
}

/// What is pasted is the text of the clipboard with its line feeds, and nothing is pasted exactly if
/// there is no text.
pub proof fn the_text_of_the_clipboard_is_pasted(
    contents: Option<String>,
    event: Option<InputEvent>,
    text: &str,
    converted: String,
)
    ensures
        call_ensures(line_feeds, (text,), converted) ==> converted@ == with_line_feeds(text@),
        call_ensures(paste_event, (contents,), event) ==> {
            &&& event is None <==> (contents matches Some(clipped) ==> clipped@.len() == 0)
            &&& event matches Some(input) ==> {
                &&& input matches InputEvent::Paste(pasted)
                &&& contents matches Some(clipped)
                &&& pasted@ == with_line_feeds(clipped@)
            }
        },
{
}

/// Over two frames, the last one is drawn, and the changes of textures of both are kept in order. A
/// new renderer has nothing to draw.
pub proof fn frames_follow_each_other<P, D, F>(
    first: UiOutput<P, D, F>,
    second: UiOutput<P, D, F>,
    made: EguiRenderer<P, D, F>,
)
    ensures
        call_ensures(EguiRenderer::<P, D, F>::new, (), made) ==> made.clipped_primitives@.len() == 0
            && made.textures_set@.len() == 0 && made.textures_free@.len() == 0,
        forall|renderer: &mut EguiRenderer<P, D, F>, later: &mut EguiRenderer<P, D, F>|
            #[trigger] call_ensures(EguiRenderer::<P, D, F>::ui, (renderer, first), ())
                && #[trigger] call_ensures(EguiRenderer::<P, D, F>::ui, (later, second), ())
                && *later == *final(renderer) ==> {
                &&& final(later).clipped_primitives@ == second.clipped_primitives@
                &&& final(later).textures_set@ == renderer.textures_set@ + first.textures_set@
                    + second.textures_set@
                &&& final(later).textures_free@ == renderer.textures_free@ + first.textures_free@
                    + second.textures_free@
            },
{
}

/// All command buffers of a frame are submitted, in order, and the one that draws comes last.
pub proof fn drawing_comes_last<B>(user_cmd_bufs: Vec<B>, encoded: B, submitted: Vec<B>)
    requires
        call_ensures(submission::<B>, (user_cmd_bufs, encoded), submitted),
    ensures
        submitted@.drop_last() == user_cmd_bufs@,
        submitted@.last() == encoded,
{
    assert(submitted@.drop_last() =~= user_cmd_bufs@);
}

} // verus!
