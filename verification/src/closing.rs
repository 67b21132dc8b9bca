//! What holds of a window's worker over any run of commands.
use vstd::prelude::*;

use crate::dimensions::PhysicalSize;
use crate::window::WindowPublisher;
use crate::worker::{Publication, WindowCommand, WindowEvent, WorkerPhase, WorkerState};

verus! {

/// The state after a run of commands.
pub open spec fn run<R, S, K, E>(
    state: WorkerState<R>,
    commands: Seq<WindowCommand<R, S, K, E>>,
) -> WorkerState<R>
    decreases commands.len(),
{
    if commands.len() == 0 {
        state
    } else {
        run(state, commands.drop_last()).after(Some(commands.last()))
    }
}

/// Those that are told about the closed window during a run of commands, in order.
pub open spec fn answered<R, S, K, E>(
    state: WorkerState<R>,
    commands: Seq<WindowCommand<R, S, K, E>>,
) -> Seq<R>
    decreases commands.len(),
{
    if commands.len() == 0 {
        Seq::empty()
    } else {
        answered(state, commands.drop_last()) + run(state, commands.drop_last()).answers(
            Some(commands.last()),
        )
    }
}

/// Those that ask during a run of commands to be told, in order.
pub open spec fn asked<R, S, K, E>(commands: Seq<WindowCommand<R, S, K, E>>) -> Seq<R>
    decreases commands.len(),
{
    if commands.len() == 0 {
        Seq::empty()
    } else {
        match commands.last() {
            WindowCommand::WaitClose { responder } => asked(commands.drop_last()).push(responder),
            _ => asked(commands.drop_last()),
        }
    }
}

/// How often the window is let go of during a run of commands.
pub open spec fn released<R, S, K, E>(
    state: WorkerState<R>,
    commands: Seq<WindowCommand<R, S, K, E>>,
) -> nat
    decreases commands.len(),
{
    if commands.len() == 0 {
        0
    } else {
        released(state, commands.drop_last()) + if run(state, commands.drop_last()).releases(
            Some(commands.last()),
        ) {
            1nat
        } else {
            0
        }
    }
}

/// Whether a run of commands tells that the window is gone.
pub open spec fn tells_destroyed<R, S, K, E>(commands: Seq<WindowCommand<R, S, K, E>>) -> bool {
    exists|i: int| 0 <= i < commands.len() && (#[trigger] commands[i]).is_destroyed()
}

/// The command that says that a window is gone is the event that it is destroyed, and no other.
pub proof fn only_one_event_says_that_the_window_is_gone<R, S, K, E>(
    command: WindowCommand<R, S, K, E>,
)
    ensures
        command.is_destroyed() <==> (command matches WindowCommand::WinitWindowEvent { event, .. }
            && event is Destroyed),
{
}

/// A window is let go of on a command to close it and on the event that it is destroyed. No other
/// command does that: not one to wait, nor any other event, whoever waits meanwhile.
pub proof fn a_window_is_held_until_it_is_closed<R, S, K, E>(
    state: WorkerState<R>,
    commands: Seq<WindowCommand<R, S, K, E>>,
)
    ensures
        run(state, commands).phase == WorkerPhase::Open <==> state.phase == WorkerPhase::Open
            && forall|i: int|
            0 <= i < commands.len() ==> {
                &&& !(#[trigger] commands[i] is Close)
                &&& !(commands[i] matches WindowCommand::WinitWindowEvent { event, .. }
                    && event is Destroyed)
            },
    decreases commands.len(),
{
    if commands.len() > 0 {
        let before = commands.drop_last();
        a_window_is_held_until_it_is_closed(state, before);
        assert forall|i: int| 0 <= i < before.len() implies before[i] == #[trigger] commands[i] by {
        }
        assert(commands.last() == commands[commands.len() - 1]);
        assert(forall|i: int|
            0 <= i < commands.len() ==> i == commands.len() - 1 || #[trigger] commands[i]
                == before[i]);
    }
}

/// A window that is held is let go of exactly on a command to close it, on the event that it is
/// destroyed, and when no more commands will come.
pub proof fn nothing_else_releases_a_window<R, S, K, E>(
    state: WorkerState<R>,
    received: Option<WindowCommand<R, S, K, E>>,
)
    requires
        state.phase == WorkerPhase::Open,
    ensures
        state.releases(received) <==> match received {
            None => true,
            Some(command) => command is Close || (
            command matches WindowCommand::WinitWindowEvent { event, .. } && event is Destroyed),
        },
        !state.releases(received) ==> state.after(received).phase == WorkerPhase::Open,
{
}

/// No command finishes a worker. It goes on to serve until it learns that no more commands will
/// come after it has let go of the window, so nobody who waits is left behind before that.
pub proof fn only_the_end_of_commands_finishes<R, S, K, E>(
    state: WorkerState<R>,
    commands: Seq<WindowCommand<R, S, K, E>>,
    received: Option<WindowCommand<R, S, K, E>>,
)
    requires
        state.phase != WorkerPhase::Finished,
    ensures
        run(state, commands).phase != WorkerPhase::Finished,
        run(state, commands).after(received).phase == WorkerPhase::Finished <==> received is None
            && run(state, commands).phase == WorkerPhase::Closing,
    decreases commands.len(),
{
    if commands.len() > 0 {
        only_the_end_of_commands_finishes(state, commands.drop_last(), Some(commands.last()));
    }
}

/// To learn that no more commands will come tells nobody anything, and changes nothing about who
/// waits.
pub proof fn the_end_of_commands_tells_nobody<R, S, K, E>(state: WorkerState<R>)
    ensures
        state.after(None::<WindowCommand<R, S, K, E>>).waiting == state.waiting,
        state.after(None::<WindowCommand<R, S, K, E>>).destroyed == state.destroyed,
        state.answers(None::<WindowCommand<R, S, K, E>>).len() == 0,
        state.surface(None::<WindowCommand<R, S, K, E>>) is None,
        state.publication(None::<WindowCommand<R, S, K, E>>) is Nothing,
        state.event(None::<WindowCommand<R, S, K, E>>) is None,
        state.releases(None::<WindowCommand<R, S, K, E>>) <==> state.phase == WorkerPhase::Open,
{
}

/// A worker keeps its invariant whatever it receives.
pub proof fn every_step_keeps_the_invariant<R, S, K, E>(
    state: WorkerState<R>,
    received: Option<WindowCommand<R, S, K, E>>,
)
    requires
        state.wf(),
    ensures
        state.after(received).wf(),
{
}

/// A worker keeps its invariant over any run of commands, and knows that the window is gone exactly
/// if it knew before or was told.
pub proof fn runs_keep_the_invariant<R, S, K, E>(
    state: WorkerState<R>,
    commands: Seq<WindowCommand<R, S, K, E>>,
)
    requires
        state.wf(),
    ensures
        run(state, commands).wf(),
        run(state, commands).destroyed <==> state.destroyed || tells_destroyed(commands),
    decreases commands.len(),
{
    if commands.len() > 0 {
        let before = commands.drop_last();
        runs_keep_the_invariant(state, before);
        if tells_destroyed(before) {
            let i = choose|i: int| 0 <= i < before.len() && (#[trigger] before[i]).is_destroyed();
            assert(commands[i].is_destroyed());
        }
        if tells_destroyed(commands) && !commands.last().is_destroyed() {
            let i = choose|i: int|
                0 <= i < commands.len() && (#[trigger] commands[i]).is_destroyed();
            assert(before[i].is_destroyed());
        }
        assert(commands.last() == commands[commands.len() - 1]);
    }
}

/// Whoever waits or asks to be told about the closed window is told once or still waits, and they
/// are told in the order in which they asked.
pub proof fn nobody_is_lost<R, S, K, E>(
    state: WorkerState<R>,
    commands: Seq<WindowCommand<R, S, K, E>>,
)
    requires
        state.wf(),
    ensures
        answered(state, commands) + run(state, commands).waiting == state.waiting + asked(commands),
    decreases commands.len(),
{
    if commands.len() > 0 {
        nobody_is_lost(state, commands.drop_last());
        runs_keep_the_invariant(state, commands.drop_last());
        let so_far = answered(state, commands.drop_last());
        let waiting = run(state, commands.drop_last()).waiting;
        match commands.last() {
            WindowCommand::WaitClose { responder } => {
                assert(state.waiting + asked(commands) =~= (state.waiting + asked(
                    commands.drop_last(),
                )).push(responder));
                assert((so_far + waiting).push(responder) =~= so_far + waiting.push(responder));
                assert(so_far.push(responder) =~= so_far + seq![responder]);
            },
            _ => {},
        }
    }
}

/// Once the window is gone, everyone who waited or asked has been told: those that asked before
/// and those that ask afterwards alike.
pub proof fn everyone_is_told_of_a_closed_window<R, S, K, E>(
    state: WorkerState<R>,
    commands: Seq<WindowCommand<R, S, K, E>>,
)
    requires
        state.wf(),
        state.destroyed || tells_destroyed(commands),
    ensures
        answered(state, commands) == state.waiting + asked(commands),
        run(state, commands).waiting.len() == 0,
{
    nobody_is_lost(state, commands);
    runs_keep_the_invariant(state, commands);
    assert(answered(state, commands) + run(state, commands).waiting =~= answered(state, commands));
}

/// Nobody is told that the window has closed before it is gone.
pub proof fn nobody_is_told_early<R, S, K, E>(
    state: WorkerState<R>,
    commands: Seq<WindowCommand<R, S, K, E>>,
)
    requires
        state.wf(),
        !state.destroyed,
        !tells_destroyed(commands),
    ensures
        answered(state, commands) == Seq::<R>::empty(),
    decreases commands.len(),
{
    if commands.len() > 0 {
        let before = commands.drop_last();
        assert forall|i: int| 0 <= i < before.len() implies !(#[trigger] before[i]).is_destroyed() by {
            assert(!commands[i].is_destroyed());
        }
        nobody_is_told_early(state, before);
        runs_keep_the_invariant(state, before);
        assert(!commands[commands.len() - 1].is_destroyed());
    }
}

/// The window is let go of at most once, on leaving the open phase, and that phase is never entered
/// again.
pub proof fn the_window_is_released_once<R, S, K, E>(
    state: WorkerState<R>,
    commands: Seq<WindowCommand<R, S, K, E>>,
)
    ensures
        released(state, commands) == if state.phase == WorkerPhase::Open && run(
            state,
            commands,
        ).phase != WorkerPhase::Open {
            1nat
        } else {
            0
        },
        state.phase != WorkerPhase::Open ==> run(state, commands).phase != WorkerPhase::Open,
    decreases commands.len(),
{
    if commands.len() > 0 {
        the_window_is_released_once(state, commands.drop_last());
    }
}

/// A worker that has let go of its window creates no surface, whatever it receives, and publishes
/// and hands to listeners only that the window is gone.
pub proof fn a_released_window_is_silent<R, S, K, E>(
    state: WorkerState<R>,
    received: Option<WindowCommand<R, S, K, E>>,
)
    requires
        state.phase != WorkerPhase::Open,
    ensures
        state.surface(received) == None::<S>,
        !state.releases(received),
        !(received matches Some(command) && command.is_destroyed()) ==> state.publication(received)
            == Publication::<K>::Nothing && state.event(received) == None::<E>,
{
}

/// That the window is closed is published exactly when the worker is told that it is gone, whether
/// the window was still held or not.
pub proof fn a_closed_window_is_published<R, S, K, E>(
    state: WorkerState<R>,
    received: Option<WindowCommand<R, S, K, E>>,
)
    ensures
        state.publication(received) == Publication::<K>::Closed <==> (received matches Some(command)
            && command.is_destroyed()),
{
}

/// To close a window is to ask for it and then to wait: the window is let go of at once, the one
/// that waits is told nothing until the window is gone, and is told then.
pub proof fn closing_waits_for_the_window<R, S, K, E>(
    state: WorkerState<R>,
    responder: R,
    rest: Seq<WindowCommand<R, S, K, E>>,
)
    requires
        state.wf(),
        state.phase == WorkerPhase::Open,
    ensures
        ({
            let commands = seq![
                WindowCommand::<R, S, K, E>::Close,
                WindowCommand::WaitClose { responder },
            ] + rest;
            &&& state.releases(Some(WindowCommand::<R, S, K, E>::Close))
            &&& run(state, commands).phase != WorkerPhase::Open
            &&& tells_destroyed(rest) ==> answered(state, commands).contains(responder)
            &&& !tells_destroyed(rest) ==> answered(state, commands).len() == 0
        }),
{
    let first = seq![
        WindowCommand::<R, S, K, E>::Close,
        WindowCommand::WaitClose { responder },
    ];
    let commands = first + rest;
    let closing = state.after(Some(WindowCommand::<R, S, K, E>::Close));
    lemma_run_splits(state, seq![WindowCommand::<R, S, K, E>::Close], commands.skip(1));
    assert(seq![WindowCommand::<R, S, K, E>::Close] + commands.skip(1) =~= commands);
    reveal_with_fuel(run, 2);
    assert(seq![WindowCommand::<R, S, K, E>::Close].drop_last().len() == 0);
    assert(run(state, seq![WindowCommand::<R, S, K, E>::Close]) == closing);
    the_window_is_released_once(closing, commands.skip(1));
    if tells_destroyed(rest) {
        let i = choose|i: int| 0 <= i < rest.len() && (#[trigger] rest[i]).is_destroyed();
        assert(commands[i + 2].is_destroyed());
        everyone_is_told_of_a_closed_window(state, commands);
        lemma_asked_contains(commands, 1, responder);
        let j = choose|j: int| 0 <= j < asked(commands).len() && asked(commands)[j] == responder;
        assert(answered(state, commands)[state.waiting.len() + j] == responder);
    } else {
        assert forall|i: int| 0 <= i < commands.len() implies !(
        #[trigger] commands[i]).is_destroyed() by {
            if i >= 2 {
                assert(!rest[i - 2].is_destroyed());
            }
        }
        nobody_is_told_early(state, commands);
    }
}

/// To ask a window to close answers nobody, and to wait for a window to close does not close it.
pub proof fn asking_and_waiting_are_separate<R, S, K, E>(state: WorkerState<R>, responder: R)
    ensures
        state.answers(Some(WindowCommand::<R, S, K, E>::Close)).len() == 0,
        state.after(Some(WindowCommand::<R, S, K, E>::Close)).waiting == state.waiting,
        state.after(Some(WindowCommand::<R, S, K, E>::WaitClose { responder })).phase
            == state.phase,
        !state.releases(Some(WindowCommand::<R, S, K, E>::WaitClose { responder })),
{
}

/// The events that the listeners to all events get during a run of commands, in order.
pub open spec fn heard<R, S, K, E>(
    state: WorkerState<R>,
    commands: Seq<WindowCommand<R, S, K, E>>,
) -> Seq<E>
    decreases commands.len(),
{
    if commands.len() == 0 {
        Seq::empty()
    } else {
        match run(state, commands.drop_last()).event(Some(commands.last())) {
            Some(event) => heard(state, commands.drop_last()).push(event),
            None => heard(state, commands.drop_last()),
        }
    }
}

/// The events of a window in a run of commands, in order.
pub open spec fn events<R, S, K, E>(commands: Seq<WindowCommand<R, S, K, E>>) -> Seq<E>
    decreases commands.len(),
{
    if commands.len() == 0 {
        Seq::empty()
    } else {
        match commands.last() {
            WindowCommand::WinitWindowEvent { full, .. } => events(commands.drop_last()).push(full),
            _ => events(commands.drop_last()),
        }
    }
}

/// Of a window that is held until the last command, the listeners to all events get every one of
/// them, in order. The last one can be that the window is gone.
pub proof fn listeners_hear_every_event<R, S, K, E>(
    state: WorkerState<R>,
    commands: Seq<WindowCommand<R, S, K, E>>,
)
    requires
        commands.len() > 0 ==> run(state, commands.drop_last()).phase == WorkerPhase::Open,
    ensures
        heard(state, commands) == events(commands),
    decreases commands.len(),
{
    if commands.len() > 0 {
        let before = commands.drop_last();
        if before.len() > 0 {
            the_window_is_released_once(run(state, before.drop_last()), seq![before.last()]);
            reveal_with_fuel(run, 2);
            assert(seq![before.last()].drop_last().len() == 0);
        }
        listeners_hear_every_event(state, before);
    }
}

/// The events of a run of commands by which a window is gone, in order.
pub open spec fn farewells<R, S, K, E>(commands: Seq<WindowCommand<R, S, K, E>>) -> Seq<E>
    decreases commands.len(),
{
    if commands.len() == 0 {
        Seq::empty()
    } else {
        match commands.last() {
            WindowCommand::WinitWindowEvent { event: WindowEvent::Destroyed, full } => farewells(
                commands.drop_last(),
            ).push(full),
            _ => farewells(commands.drop_last()),
        }
    }
}

/// Once the window is let go of, the listeners to all events get only the one by which it is gone.
pub proof fn listeners_hear_that_a_released_window_is_gone<R, S, K, E>(
    state: WorkerState<R>,
    commands: Seq<WindowCommand<R, S, K, E>>,
)
    requires
        state.phase != WorkerPhase::Open,
    ensures
        heard(state, commands) == farewells(commands),
    decreases commands.len(),
{
    if commands.len() > 0 {
        listeners_hear_that_a_released_window_is_gone(state, commands.drop_last());
        the_window_is_released_once(state, commands.drop_last());
    }
}

/// The listeners to all events get the one by which the window is gone, whatever came before it.
pub proof fn listeners_hear_the_end<R, S, K, E>(
    state: WorkerState<R>,
    commands: Seq<WindowCommand<R, S, K, E>>,
    full: E,
)
    ensures
        heard(
            state,
            commands.push(
                WindowCommand::WinitWindowEvent { event: WindowEvent::Destroyed, full },
            ),
        ) == heard(state, commands).push(full),
{
    let last = WindowCommand::<R, S, K, E>::WinitWindowEvent { event: WindowEvent::Destroyed, full };
    assert(commands.push(last).drop_last() =~= commands);
}

/// The commands of a run that are served while the window is held, up to and with the one on which
/// it is let go of.
pub open spec fn held<R, S, K, E>(
    state: WorkerState<R>,
    commands: Seq<WindowCommand<R, S, K, E>>,
) -> Seq<WindowCommand<R, S, K, E>>
    decreases commands.len(),
{
    if commands.len() == 0 {
        Seq::empty()
    } else if run(state, commands.drop_last()).phase == WorkerPhase::Open {
        held(state, commands.drop_last()).push(commands.last())
    } else {
        held(state, commands.drop_last())
    }
}

/// A window is held from the start of a run: over all of it, or up to and with a command on which
/// it is let go of.
pub proof fn a_window_is_held_from_the_start<R, S, K, E>(
    state: WorkerState<R>,
    commands: Seq<WindowCommand<R, S, K, E>>,
)
    ensures
        held(state, commands) == commands.take(held(state, commands).len() as int),
        held(state, commands).len() <= commands.len(),
        run(state, commands).phase == WorkerPhase::Open ==> held(state, commands) == commands,
        run(state, commands).phase != WorkerPhase::Open ==> run(
            state,
            held(state, commands),
        ).phase != WorkerPhase::Open,
    decreases commands.len(),
{
    if commands.len() == 0 {
        assert(held(state, commands) =~= commands);
        assert(commands.take(0) =~= commands);
    } else {
        let before = commands.drop_last();
        a_window_is_held_from_the_start(state, before);
        if run(state, before).phase == WorkerPhase::Open {
            assert(held(state, commands) =~= commands);
            assert(commands.take(commands.len() as int) =~= commands);
        } else {
            let n = held(state, before).len() as int;
            assert(commands.take(n) =~= before.take(n));
        }
    }
}

/// The keyboard events that are published during a run of commands, in order.
pub open spec fn keys_published<R, S, K, E>(
    state: WorkerState<R>,
    commands: Seq<WindowCommand<R, S, K, E>>,
) -> Seq<K>
    decreases commands.len(),
{
    if commands.len() == 0 {
        Seq::empty()
    } else {
        let publication = run(state, commands.drop_last()).publication(Some(commands.last()));
        keys_published(state, commands.drop_last()) + publication.keys()
    }
}

/// The keyboard events of a run of commands, in order.
pub open spec fn keys_in<R, S, K, E>(commands: Seq<WindowCommand<R, S, K, E>>) -> Seq<K>
    decreases commands.len(),
{
    if commands.len() == 0 {
        Seq::empty()
    } else {
        match commands.last() {
            WindowCommand::WinitWindowEvent { event: WindowEvent::KeyboardInput { event }, .. } => {
                keys_in(commands.drop_last()).push(event)
            },
            _ => keys_in(commands.drop_last()),
        }
    }
}

/// Exactly the keyboard events of the time that the window is held are published, in order.
pub proof fn keyboard_events_are_published<R, S, K, E>(
    state: WorkerState<R>,
    commands: Seq<WindowCommand<R, S, K, E>>,
)
    ensures
        keys_published(state, commands) == keys_in(held(state, commands)),
    decreases commands.len(),
{
    if commands.len() > 0 {
        let before = commands.drop_last();
        keyboard_events_are_published(state, before);
        if run(state, before).phase == WorkerPhase::Open {
            assert(held(state, commands).drop_last() =~= held(state, before));
        }
        assert(keys_published(state, commands) =~= keys_in(held(state, commands)));
    }
}

/// The sizes that are published during a run of commands, in order.
pub open spec fn sizes_published<R, S, K, E>(
    state: WorkerState<R>,
    commands: Seq<WindowCommand<R, S, K, E>>,
) -> Seq<PhysicalSize>
    decreases commands.len(),
{
    if commands.len() == 0 {
        Seq::empty()
    } else {
        let publication = run(state, commands.drop_last()).publication(Some(commands.last()));
        sizes_published(state, commands.drop_last()) + publication.sizes()
    }
}

/// The sizes that are reported in a run of commands, in order.
pub open spec fn sizes_in<R, S, K, E>(commands: Seq<WindowCommand<R, S, K, E>>) -> Seq<PhysicalSize>
    decreases commands.len(),
{
    if commands.len() == 0 {
        Seq::empty()
    } else {
        match commands.last() {
            WindowCommand::WinitWindowEvent { event: WindowEvent::Resized { dimensions }, .. } => {
                sizes_in(commands.drop_last()).push(dimensions)
            },
            _ => sizes_in(commands.drop_last()),
        }
    }
}

/// Exactly the sizes that are reported while the window is held are published, in order.
pub proof fn sizes_are_published<R, S, K, E>(
    state: WorkerState<R>,
    commands: Seq<WindowCommand<R, S, K, E>>,
)
    ensures
        sizes_published(state, commands) == sizes_in(held(state, commands)),
    decreases commands.len(),
{
    if commands.len() > 0 {
        let before = commands.drop_last();
        sizes_are_published(state, before);
        if run(state, before).phase == WorkerPhase::Open {
            assert(held(state, commands).drop_last() =~= held(state, before));
        }
        assert(sizes_published(state, commands) =~= sizes_in(held(state, commands)));
    }
}

/// How many requests to redraw are published during a run of commands.
pub open spec fn redraws_published<R, S, K, E>(
    state: WorkerState<R>,
    commands: Seq<WindowCommand<R, S, K, E>>,
) -> nat
    decreases commands.len(),
{
    if commands.len() == 0 {
        0
    } else {
        let publication = run(state, commands.drop_last()).publication(Some(commands.last()));
        redraws_published(state, commands.drop_last()) + publication.redraws()
    }
}

/// How often a window wants to be drawn in a run of commands.
pub open spec fn redraws_in<R, S, K, E>(commands: Seq<WindowCommand<R, S, K, E>>) -> nat
    decreases commands.len(),
{
    if commands.len() == 0 {
        0
    } else {
        match commands.last() {
            WindowCommand::WinitWindowEvent { event: WindowEvent::RedrawRequested, .. } => {
                redraws_in(commands.drop_last()) + 1
            },
            _ => redraws_in(commands.drop_last()),
        }
    }
}

/// Each request to redraw a window that is held is published once, and there are no others.
pub proof fn requests_to_redraw_are_published<R, S, K, E>(
    state: WorkerState<R>,
    commands: Seq<WindowCommand<R, S, K, E>>,
)
    ensures
        redraws_published(state, commands) == redraws_in(held(state, commands)),
    decreases commands.len(),
{
    if commands.len() > 0 {
        let before = commands.drop_last();
        requests_to_redraw_are_published(state, before);
        if run(state, before).phase == WorkerPhase::Open {
            assert(held(state, commands).drop_last() =~= held(state, before));
        }
        assert(redraws_published(state, commands) == redraws_in(held(state, commands)));
    }
}

/// What is published of requests to close during a run of commands, in order.
pub open spec fn close_requests_published<R, S, K, E>(
    state: WorkerState<R>,
    commands: Seq<WindowCommand<R, S, K, E>>,
) -> Seq<bool>
    decreases commands.len(),
{
    if commands.len() == 0 {
        Seq::empty()
    } else {
        let publication = run(state, commands.drop_last()).publication(Some(commands.last()));
        close_requests_published(state, commands.drop_last()) + publication.close_requests()
    }
}

/// For each request to close in a run of commands, that there is one.
pub open spec fn close_requests_in<R, S, K, E>(commands: Seq<WindowCommand<R, S, K, E>>) -> Seq<bool>
    decreases commands.len(),
{
    if commands.len() == 0 {
        Seq::empty()
    } else {
        match commands.last() {
            WindowCommand::WinitWindowEvent { event: WindowEvent::CloseRequested, .. } => {
                close_requests_in(commands.drop_last()).push(true)
            },
            _ => close_requests_in(commands.drop_last()),
        }
    }
}

/// Each request to close a window that is held is published once, and never taken back.
pub proof fn requests_to_close_are_published<R, S, K, E>(
    state: WorkerState<R>,
    commands: Seq<WindowCommand<R, S, K, E>>,
)
    ensures
        close_requests_published(state, commands) == close_requests_in(held(state, commands)),
    decreases commands.len(),
{
    if commands.len() > 0 {
        let before = commands.drop_last();
        requests_to_close_are_published(state, before);
        if run(state, before).phase == WorkerPhase::Open {
            assert(held(state, commands).drop_last() =~= held(state, before));
        }
        assert(close_requests_published(state, commands) =~= close_requests_in(held(state, commands)));
    }
}

/// Those for whom surfaces are created during a run of commands, in order.
pub open spec fn surfaces_created<R, S, K, E>(
    state: WorkerState<R>,
    commands: Seq<WindowCommand<R, S, K, E>>,
) -> Seq<S>
    decreases commands.len(),
{
    if commands.len() == 0 {
        Seq::empty()
    } else {
        match run(state, commands.drop_last()).surface(Some(commands.last())) {
            Some(responder) => surfaces_created(state, commands.drop_last()).push(responder),
            None => surfaces_created(state, commands.drop_last()),
        }
    }
}

/// Those that ask for a surface in a run of commands, in order.
pub open spec fn surfaces_in<R, S, K, E>(commands: Seq<WindowCommand<R, S, K, E>>) -> Seq<S>
    decreases commands.len(),
{
    if commands.len() == 0 {
        Seq::empty()
    } else {
        match commands.last() {
            WindowCommand::CreateSurface { responder } => surfaces_in(commands.drop_last()).push(
                responder,
            ),
            _ => surfaces_in(commands.drop_last()),
        }
    }
}

/// A surface is created for exactly those that ask while the window is held, in order.
pub proof fn surfaces_are_created<R, S, K, E>(
    state: WorkerState<R>,
    commands: Seq<WindowCommand<R, S, K, E>>,
)
    ensures
        surfaces_created(state, commands) == surfaces_in(held(state, commands)),
    decreases commands.len(),
{
    if commands.len() > 0 {
        let before = commands.drop_last();
        surfaces_are_created(state, before);
        if run(state, before).phase == WorkerPhase::Open {
            assert(held(state, commands).drop_last() =~= held(state, before));
        }
    }
}

/// Whether a worker that serves a run of commands has its outlets as given, before the first
/// command and after each of them: what it does about a command is put to the channels.
pub open spec fn put_over<R, S, K, E>(
    state: WorkerState<R>,
    commands: Seq<WindowCommand<R, S, K, E>>,
    outlets: Seq<WindowPublisher<K, E>>,
) -> bool
    decreases commands.len(),
{
    &&& outlets.len() == commands.len() + 1
    &&& commands.len() > 0 ==> {
        let served = run(state, commands.drop_last());
        &&& put_over(state, commands.drop_last(), outlets.drop_last())
        &&& WindowPublisher::puts(
            outlets.drop_last().last(),
            outlets.last(),
            served.publication(Some(commands.last())),
            served.event(Some(commands.last())),
        )
    }
}

/// Over a run of commands, exactly what happens while the window is held is put to its channels,
/// in order: requests to redraw, sizes, requests to close and keyboard events. Listeners to all
/// events are sent what they are to hear. The size has a writing end until the window is gone.
pub proof fn channels_get_what_happens<R, S, K, E>(
    state: WorkerState<R>,
    commands: Seq<WindowCommand<R, S, K, E>>,
    outlets: Seq<WindowPublisher<K, E>>,
)
    requires
        state.wf(),
        put_over(state, commands, outlets),
        outlets.first().dimensions.channel() is Some <==> !state.destroyed,
    ensures
        ({
            let before = outlets.first();
            let after = outlets.last();
            let happened = held(state, commands);
            &&& after.redraw_requested.given() == before.redraw_requested.given() + redraws_in(
                happened,
            )
            &&& after.dimensions.put() == before.dimensions.put() + sizes_in(happened)
            &&& after.close_requested.put() == before.close_requested.put() + close_requests_in(
                happened,
            )
            &&& after.keyboard_events.put() == before.keyboard_events.put() + keys_in(happened)
            &&& after.window_events.put() == before.window_events.put() + heard(state, commands)
            &&& after.dimensions.channel() == if tells_destroyed(commands) {
                None
            } else {
                before.dimensions.channel()
            }
        }),
    decreases commands.len(),
{
    let before = outlets.first();
    let after = outlets.last();
    if commands.len() == 0 {
        assert(before.dimensions.put() + sizes_in(held(state, commands)) =~= after.dimensions.put());
        assert(before.close_requested.put() + close_requests_in(held(state, commands))
            =~= after.close_requested.put());
        assert(before.keyboard_events.put() + keys_in(held(state, commands))
            =~= after.keyboard_events.put());
        assert(before.window_events.put() + heard(state, commands) =~= after.window_events.put());
    } else {
        let earlier = commands.drop_last();
        let served = run(state, earlier);
        let publication = served.publication(Some(commands.last()));
        channels_get_what_happens(state, earlier, outlets.drop_last());
        runs_keep_the_invariant(state, earlier);
        runs_keep_the_invariant(state, commands);
        if served.phase == WorkerPhase::Open {
            assert(held(state, commands).drop_last() =~= held(state, earlier));
        }
        keyboard_events_are_published(state, earlier);
        keyboard_events_are_published(state, commands);
        sizes_are_published(state, earlier);
        sizes_are_published(state, commands);
        requests_to_redraw_are_published(state, earlier);
        requests_to_redraw_are_published(state, commands);
        requests_to_close_are_published(state, earlier);
        requests_to_close_are_published(state, commands);
        assert(before.dimensions.put() + (sizes_published(state, earlier) + publication.sizes())
            =~= after.dimensions.put());
        assert(before.close_requested.put() + (close_requests_published(state, earlier)
            + publication.close_requests()) =~= after.close_requested.put());
        assert(before.keyboard_events.put() + (keys_published(state, earlier) + publication.keys())
            =~= after.keyboard_events.put());
        assert(before.window_events.put() + heard(state, commands) =~= after.window_events.put());
    }
}

/// A window that nobody holds any more is let go of as if it had been told to close. When the
/// worker learns a second time that no more commands will come, it is finished.
pub proof fn a_dropped_window_closes<R, S, K, E>(state: WorkerState<R>)
    requires
        state.phase == WorkerPhase::Open,
    ensures
        state.releases(None::<WindowCommand<R, S, K, E>>),
        state.after(None::<WindowCommand<R, S, K, E>>) == state.after(
            Some(WindowCommand::<R, S, K, E>::Close),
        ),
        state.after(None::<WindowCommand<R, S, K, E>>).after(
            None::<WindowCommand<R, S, K, E>>,
        ).phase == WorkerPhase::Finished,
{
}

/// A run over two stretches is a run over the first and then one over the second.
proof fn lemma_run_splits<R, S, K, E>(
    state: WorkerState<R>,
    first: Seq<WindowCommand<R, S, K, E>>,
    second: Seq<WindowCommand<R, S, K, E>>,
)
    ensures
        run(state, first + second) == run(run(state, first), second),
    decreases second.len(),
{
    if second.len() == 0 {
        assert(first + second =~= first);
    } else {
        lemma_run_splits(state, first, second.drop_last());
        assert((first + second).drop_last() =~= first + second.drop_last());
        assert((first + second).last() == second.last());
    }
}

/// A request at a place of a run is among those of the run.
proof fn lemma_asked_contains<R, S, K, E>(
    commands: Seq<WindowCommand<R, S, K, E>>,
    place: int,
    responder: R,
)
    requires
        0 <= place < commands.len(),
        commands[place] == (WindowCommand::<R, S, K, E>::WaitClose { responder }),
    ensures
        asked(commands).contains(responder),
    decreases commands.len(),
{
    if place == commands.len() - 1 {
        assert(asked(commands).last() == responder);
    } else {
        lemma_asked_contains(commands.drop_last(), place, responder);
        let j = choose|j: int|
            0 <= j < asked(commands.drop_last()).len() && asked(commands.drop_last())[j]
                == responder;
        assert(asked(commands)[j] == responder);
    }
}

} // verus!
