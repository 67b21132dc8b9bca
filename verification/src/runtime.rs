//! The worker that knows all windows and passes their commands on.
use std::collections::HashMap;

use vstd::prelude::*;

use crate::worker::{WindowCommand, WindowEvent};

verus! {

broadcast use vstd::std_specs::hash::group_hash_axioms;

/// What the worker behind all windows can be told.
///
/// `Q` answers a request for a window, `W` is a window of the platform and `C` what a window's
/// worker can be told.
#[derive(Debug)]
pub enum RuntimeCommand<Q, W, C> {
    /// Give a new window of the platform a worker of its own.
    RegisterWindow { responder: Q, window: W },
    /// Pass a command on to the worker of a window.
    WindowCommand { window_id: u64, command: C },
}

/// What is to be done about a command.
#[derive(Debug)]
pub enum RuntimeAction<Q, W, H, C> {
    /// Open the way to a new worker for the window, register it and answer.
    OpenWindow { responder: Q, window: W },
    /// Send the command if the way to the worker is still open. Otherwise the window object is
    /// gone, and the command is thrown away.
    Deliver { commander: H, command: C },
}

impl<R, S, K, E> WindowCommand<R, S, K, E> {
    /// Whether the command is the last one that its window gets.
    fn destroys(&self) -> (destroys: bool)
        ensures
            destroys == self.is_destroyed(),
    {
        match self {
            WindowCommand::WinitWindowEvent { event: WindowEvent::Destroyed, .. } => true,
            _ => false,
        }
    }
}

/// The windows that are known after a command for one of them: a window is forgotten with the
/// command by which it is gone.
pub open spec fn known_after<H, R, S, K, E>(
    windows: Map<u64, H>,
    window_id: u64,
    command: WindowCommand<R, S, K, E>,
) -> Map<u64, H> {
    if command.is_destroyed() {
        windows.remove(window_id)
    } else {
        windows
    }
}

/// Knows the way to the worker of each window. `H` is such a way, which does not keep the worker
/// running.
#[derive(Debug)]
pub struct RuntimeWorker<H> {
    pub windows: HashMap<u64, H>,
}

impl<H> View for RuntimeWorker<H> {
    type V = Map<u64, H>;

    open spec fn view(&self) -> Map<u64, H> {
        self.windows@
    }
}

impl<H> RuntimeWorker<H> {
    /// A worker that knows no window.
    pub fn new() -> (worker: Self)
        ensures
            worker@ == Map::<u64, H>::empty(),
    {
        RuntimeWorker { windows: HashMap::new() }
    }

    /// Registers the way to the worker of a window, in place of any former one.
    pub fn register(&mut self, window_id: u64, commander: H)
        ensures
            final(self)@ == old(self)@.insert(window_id, commander),
    {
        self.windows.insert(window_id, commander);
    }

    /// Whether a window is registered, so that there can be commands for it.
    pub fn is_registered(&self, window_id: u64) -> (registered: bool)
        ensures
            registered == self@.contains_key(window_id),
    {
        self.windows.contains_key(&window_id)
    }

    /// Says what is to be done about a command.
    ///
    /// A command for a window comes only while that window is registered.
    pub fn serve<Q, W, R, S, K, E>(
        &mut self,
        command: RuntimeCommand<Q, W, WindowCommand<R, S, K, E>>,
    ) -> (action: RuntimeAction<Q, W, H, WindowCommand<R, S, K, E>>) where H: Clone
        requires
            command matches RuntimeCommand::WindowCommand { window_id, .. } ==> old(
                self,
            )@.contains_key(window_id),
        ensures
            match command {
                RuntimeCommand::RegisterWindow { responder, window } => {
                    &&& action == (RuntimeAction::<Q, W, H, WindowCommand<R, S, K, E>>::OpenWindow {
                        responder,
                        window,
                    })
                    &&& final(self)@ == old(self)@
                },
                RuntimeCommand::WindowCommand { window_id, command } => {
                    &&& action matches RuntimeAction::Deliver { commander, command: delivered }
                    &&& cloned(old(self)@[window_id], commander)
                    &&& delivered == command
                    &&& final(self)@ == known_after(old(self)@, window_id, command)
                },
            },
    {
        match command {
            RuntimeCommand::RegisterWindow { responder, window } => {
                RuntimeAction::OpenWindow { responder, window }
            },
            RuntimeCommand::WindowCommand { window_id, command } => {
                let commander: H = self.windows.get(&window_id).unwrap().clone();
                if command.destroys() {
                    self.windows.remove(&window_id);
                }
                RuntimeAction::Deliver { commander, command }
            },
        }
    }
}

/// A command for one window changes nothing about any other, and a window stays known until the
/// command by which it is gone.
pub proof fn windows_do_not_disturb_each_other<H, R, S, K, E>(
    windows: Map<u64, H>,
    window_id: u64,
    command: WindowCommand<R, S, K, E>,
)
    requires
        windows.contains_key(window_id),
    ensures
        forall|other: u64|
            other != window_id ==> {
                &&& known_after(windows, window_id, command).contains_key(other)
                    == windows.contains_key(other)
                &&& windows.contains_key(other) ==> known_after(
                    windows,
                    window_id,
                    command,
                )[other] == windows[other]
            },
        known_after(windows, window_id, command).contains_key(window_id)
            == !command.is_destroyed(),
{
}

/// The windows that are known after a run of commands, each for the window that it names.
pub open spec fn known_after_run<H, R, S, K, E>(
    windows: Map<u64, H>,
    commands: Seq<(u64, WindowCommand<R, S, K, E>)>,
) -> Map<u64, H>
    decreases commands.len(),
{
    if commands.len() == 0 {
        windows
    } else {
        known_after(
            known_after_run(windows, commands.drop_last()),
            commands.last().0,
            commands.last().1,
        )
    }
}

/// Once a window is registered with a worker, that is where its commands go, whatever other windows
/// get, up to and with the command by which the window is gone.
pub proof fn commands_reach_the_registered_worker<H, R, S, K, E>(
    windows: Map<u64, H>,
    window_id: u64,
    commander: H,
    commands: Seq<(u64, WindowCommand<R, S, K, E>)>,
)
    requires
        forall|i: int|
            0 <= i < commands.len() && (#[trigger] commands[i]).0 == window_id
                ==> !commands[i].1.is_destroyed(),
    ensures
        known_after_run(windows.insert(window_id, commander), commands).contains_key(window_id),
        known_after_run(windows.insert(window_id, commander), commands)[window_id] == commander,
    decreases commands.len(),
{
    if commands.len() > 0 {
        let before = commands.drop_last();
        assert forall|i: int|
            0 <= i < before.len() && (#[trigger] before[i]).0
                == window_id implies !before[i].1.is_destroyed() by {
            assert(commands[i] == before[i]);
        }
        commands_reach_the_registered_worker(windows, window_id, commander, before);
        assert(commands[commands.len() - 1] == commands.last());
    }
}

} // verus!
