//! The worker behind a window: what it does with each command, until the window is gone.
use vstd::prelude::*;

use crate::dimensions::PhysicalSize;

verus! {

/// What the worker tells apart in the events of a window. `K` is a keyboard event.
#[derive(Debug)]
pub enum WindowEvent<K> {
    /// The window is gone.
    Destroyed,
    /// The window wants to be drawn.
    RedrawRequested,
    /// The inside of the window has this size now.
    Resized { dimensions: PhysicalSize },
    /// A key was pressed or released.
    KeyboardInput { event: K },
    /// The user asked for the window to be closed.
    CloseRequested,
    /// Any other event.
    Other,
}

/// What a window's worker can be told.
///
/// `R` answers a request to wait for the window to close and `S` one for a surface. `K` is a
/// keyboard event and `E` an event in full, as listeners get it.
#[derive(Debug)]
pub enum WindowCommand<R, S, K, E> {
    /// Close the window.
    Close,
    /// Answer once the window has closed.
    WaitClose { responder: R },
    /// Answer with a new surface of the window.
    CreateSurface { responder: S },
    /// The window got an event.
    WinitWindowEvent { event: WindowEvent<K>, full: E },
}

impl<R, S, K, E> WindowCommand<R, S, K, E> {
    /// Whether the command says that the window is gone.
    pub open spec fn is_destroyed(&self) -> bool {
        self matches WindowCommand::WinitWindowEvent { event: WindowEvent::Destroyed, .. }
    }
}

/// How far a worker has come.
#[derive(Copy, Clone, Debug, PartialEq, Eq, Structural)]
pub enum WorkerPhase {
    /// The worker holds the window.
    Open,
    /// The worker has let go of the window and answers those that wait for it to close.
    Closing,
    /// No command can come any more.
    Finished,
}

/// What the worker publishes to the holders of the window. `K` is a keyboard event.
#[derive(Debug)]
pub enum Publication<K> {
    Nothing,
    /// The window wants to be drawn.
    Redraw,
    /// The inside of the window was reported to have this size.
    Dimensions { dimensions: PhysicalSize },
    /// A key was pressed or released.
    Key { event: K },
    /// The window was asked to close.
    CloseRequested,
    /// The window is gone.
    Closed,
}

impl<K> Publication<K> {
    /// How many requests to redraw are published.
    pub open spec fn redraws(self) -> nat {
        if self is Redraw {
            1
        } else {
            0
        }
    }

    /// The sizes that are published.
    pub open spec fn sizes(self) -> Seq<PhysicalSize> {
        match self {
            Publication::Dimensions { dimensions } => seq![dimensions],
            _ => Seq::empty(),
        }
    }

    /// What is published of requests to close: each sets that there is one.
    pub open spec fn close_requests(self) -> Seq<bool> {
        if self is CloseRequested {
            seq![true]
        } else {
            Seq::empty()
        }
    }

    /// The keyboard events that are published.
    pub open spec fn keys(self) -> Seq<K> {
        match self {
            Publication::Key { event } => seq![event],
            _ => Seq::empty(),
        }
    }
}

/// What the worker does about one command.
#[derive(Debug)]
pub struct Reaction<R, S, K, E> {
    /// Those to be told, in this order, that the window has closed without an error.
    pub answered: Vec<R>,
    /// The one for whom a surface is to be created.
    pub surface: Option<S>,
    /// What is published to the holders of the window.
    pub publication: Publication<K>,
    /// The event that the listeners to all events get, after `publication`.
    pub event: Option<E>,
    /// Whether the window is let go of, which closes it in time.
    pub release_window: bool,
}

impl<R, S, K, E> Reaction<R, S, K, E> {
    /// The reaction to a command about which nothing is to be done.
    fn nothing() -> (reaction: Self)
        ensures
            reaction.answered@ == Seq::<R>::empty(),
            reaction.surface is None,
            reaction.publication is Nothing,
            reaction.event is None,
            !reaction.release_window,
    {
        Reaction {
            answered: Vec::new(),
            surface: None,
            publication: Publication::Nothing,
            event: None,
            release_window: false,
        }
    }
}

/// The state of a worker as far as it matters for what happens next.
#[verifier::ext_equal]
pub struct WorkerState<R> {
    pub phase: WorkerPhase,
    /// Those that wait for the window to close, in the order of their requests.
    pub waiting: Seq<R>,
    /// Whether the window is known to be gone.
    pub destroyed: bool,
}

impl<R> WorkerState<R> {
    /// A worker lets go of a window that is gone, and nobody waits for it.
    pub open spec fn wf(self) -> bool {
        self.destroyed ==> self.phase != WorkerPhase::Open && self.waiting.len() == 0
    }

    /// The state after a command, or after learning that no more commands will come.
    pub open spec fn after<S, K, E>(self, received: Option<WindowCommand<R, S, K, E>>) -> Self {
        match received {
            None => WorkerState {
                phase: if self.phase == WorkerPhase::Open {
                    WorkerPhase::Closing
                } else {
                    WorkerPhase::Finished
                },
                ..self
            },
            Some(WindowCommand::Close) => WorkerState {
                phase: if self.phase == WorkerPhase::Open {
                    WorkerPhase::Closing
                } else {
                    self.phase
                },
                ..self
            },
            Some(WindowCommand::WaitClose { responder }) => if self.destroyed {
                self
            } else {
                WorkerState { waiting: self.waiting.push(responder), ..self }
            },
            Some(WindowCommand::CreateSurface { .. }) => self,
            Some(WindowCommand::WinitWindowEvent { event: WindowEvent::Destroyed, .. }) => WorkerState {
                phase: if self.phase == WorkerPhase::Open {
                    WorkerPhase::Closing
                } else {
                    self.phase
                },
                waiting: Seq::empty(),
                destroyed: true,
            },
            Some(WindowCommand::WinitWindowEvent { .. }) => self,
        }
    }

    /// Those that are told about the closed window, in order.
    pub open spec fn answers<S, K, E>(self, received: Option<WindowCommand<R, S, K, E>>) -> Seq<R> {
        match received {
            Some(WindowCommand::WaitClose { responder }) if self.destroyed => seq![responder],
            Some(WindowCommand::WinitWindowEvent { event: WindowEvent::Destroyed, .. }) => {
                self.waiting
            },
            _ => Seq::empty(),
        }
    }

    /// The one for whom a surface is created: only a worker that holds its window creates any.
    pub open spec fn surface<S, K, E>(self, received: Option<WindowCommand<R, S, K, E>>) -> Option<
        S,
    > {
        match received {
            Some(WindowCommand::CreateSurface { responder }) if self.phase == WorkerPhase::Open => {
                Some(responder)
            },
            _ => None,
        }
    }

    /// What is published to the holders of the window.
    pub open spec fn publication<S, K, E>(
        self,
        received: Option<WindowCommand<R, S, K, E>>,
    ) -> Publication<K> {
        match received {
            Some(WindowCommand::WinitWindowEvent { event: WindowEvent::Destroyed, .. }) => {
                Publication::Closed
            },
            Some(WindowCommand::WinitWindowEvent { event, .. }) if self.phase == WorkerPhase::Open => {
                match event {
                    WindowEvent::RedrawRequested => Publication::Redraw,
                    WindowEvent::Resized { dimensions } => Publication::Dimensions { dimensions },
                    WindowEvent::KeyboardInput { event } => Publication::Key { event },
                    WindowEvent::CloseRequested => Publication::CloseRequested,
                    WindowEvent::Destroyed | WindowEvent::Other => Publication::Nothing,
                }
            },
            _ => Publication::Nothing,
        }
    }

    /// The event that the listeners to all events get: every one as long as the window is held, and
    /// in any case the one by which the window is gone.
    pub open spec fn event<S, K, E>(self, received: Option<WindowCommand<R, S, K, E>>) -> Option<E> {
        match received {
            Some(WindowCommand::WinitWindowEvent { event, full }) if self.phase == WorkerPhase::Open
                || event is Destroyed => Some(full),
            _ => None,
        }
    }

    /// Whether the window is let go of.
    pub open spec fn releases<S, K, E>(self, received: Option<WindowCommand<R, S, K, E>>) -> bool {
        self.phase == WorkerPhase::Open && self.after(received).phase != WorkerPhase::Open
    }
}

/// Serves the commands of one window.
#[derive(Debug)]
pub struct WindowWorker<R> {
    phase: WorkerPhase,
    close_responders: Vec<R>,
    destroyed: bool,
}

impl<R> View for WindowWorker<R> {
    type V = WorkerState<R>;

    closed spec fn view(&self) -> WorkerState<R> {
        WorkerState {
            phase: self.phase,
            waiting: self.close_responders@,
            destroyed: self.destroyed,
        }
    }
}

impl<R> WindowWorker<R> {
    /// A worker that holds its window, with nobody waiting.
    pub fn new() -> (worker: Self)
        ensures
            worker@ == (WorkerState::<R> {
                phase: WorkerPhase::Open,
                waiting: Seq::empty(),
                destroyed: false,
            }),
            worker@.wf(),
    {
        WindowWorker { phase: WorkerPhase::Open, close_responders: Vec::new(), destroyed: false }
    }

    /// How far the worker has come.
    pub fn phase(&self) -> (phase: WorkerPhase)
        ensures
            phase == self@.phase,
    {
        self.phase
    }

    /// Notes that the window is gone, and hands out all that waited for it.
    fn window_destroyed(&mut self) -> (answered: Vec<R>)
        ensures
            final(self).phase == old(self).phase,
            final(self).close_responders@.len() == 0,
            final(self).destroyed,
            answered@ == old(self).close_responders@,
    {
        let mut answered: Vec<R> = Vec::new();
        std::mem::swap(&mut answered, &mut self.close_responders);
        self.destroyed = true;
        answered
    }

    /// Serves one command while the window is held.
    fn serve_open<S, K, E>(&mut self, command: WindowCommand<R, S, K, E>) -> (reaction: Reaction<
        R,
        S,
        K,
        E,
    >)
        requires
            old(self)@.wf(),
            old(self).phase == WorkerPhase::Open,
        ensures
            final(self)@ == old(self)@.after(Some(command)),
            reaction.answered@ == old(self)@.answers(Some(command)),
            reaction.surface == old(self)@.surface(Some(command)),
            reaction.publication == old(self)@.publication(Some(command)),
            reaction.event == old(self)@.event(Some(command)),
            reaction.release_window == old(self)@.releases(Some(command)),
    {
        let mut reaction: Reaction<R, S, K, E> = Reaction::nothing();
        match command {
            WindowCommand::Close => {
                self.phase = WorkerPhase::Closing;
                reaction.release_window = true;
            },
            WindowCommand::WaitClose { responder } => {
                self.close_responders.push(responder);
            },
            WindowCommand::CreateSurface { responder } => {
                reaction.surface = Some(responder);
            },
            WindowCommand::WinitWindowEvent { event, full } => match event {
                WindowEvent::Destroyed => {
                    reaction.answered = self.window_destroyed();
                    reaction.publication = Publication::Closed;
                    reaction.event = Some(full);
                    reaction.release_window = true;
                    self.phase = WorkerPhase::Closing;
                },
                WindowEvent::RedrawRequested => {
                    reaction.publication = Publication::Redraw;
                    reaction.event = Some(full);
                },
                WindowEvent::Resized { dimensions } => {
                    reaction.publication = Publication::Dimensions { dimensions };
                    reaction.event = Some(full);
                },
                WindowEvent::KeyboardInput { event } => {
                    reaction.publication = Publication::Key { event };
                    reaction.event = Some(full);
                },
                WindowEvent::CloseRequested => {
                    reaction.publication = Publication::CloseRequested;
                    reaction.event = Some(full);
                },
                WindowEvent::Other => {
                    reaction.event = Some(full);
                },
            },
        }
        reaction
    }

    /// Serves one command after the window was let go of.
    ///
    /// Only that the window is gone, and those that wait for it, matter now.
    fn serve_closing<S, K, E>(&mut self, command: WindowCommand<R, S, K, E>) -> (reaction: Reaction<
        R,
        S,
        K,
        E,
    >)
        requires
            old(self)@.wf(),
            old(self).phase == WorkerPhase::Closing,
        ensures
            final(self)@ == old(self)@.after(Some(command)),
            reaction.answered@ == old(self)@.answers(Some(command)),
            reaction.surface == old(self)@.surface(Some(command)),
            reaction.publication == old(self)@.publication(Some(command)),
            reaction.event == old(self)@.event(Some(command)),
            reaction.release_window == old(self)@.releases(Some(command)),
    {
        let mut reaction: Reaction<R, S, K, E> = Reaction::nothing();
        match command {
            WindowCommand::WaitClose { responder } => {
                if self.destroyed {
                    reaction.answered.push(responder);
                } else {
                    self.close_responders.push(responder);
                }
            },
            WindowCommand::WinitWindowEvent { event: WindowEvent::Destroyed, full } => {
                reaction.answered = self.window_destroyed();
                reaction.publication = Publication::Closed;
                reaction.event = Some(full);
            },
            _ => {},
        }
        reaction
    }

    /// Takes the next command, or the news that no more will come since every holder of the window
    /// is gone, and says what is to be done about it.
    ///
    /// A window that nobody holds any more is let go of, so it closes as if it had been told to.
    pub fn serve<S, K, E>(&mut self, received: Option<WindowCommand<R, S, K, E>>) -> (reaction: Reaction<
        R,
        S,
        K,
        E,
    >)
        requires
            old(self)@.wf(),
            old(self)@.phase != WorkerPhase::Finished,
        ensures
            final(self)@.wf(),
            final(self)@ == old(self)@.after(received),
            reaction.answered@ == old(self)@.answers(received),
            reaction.surface == old(self)@.surface(received),
            reaction.publication == old(self)@.publication(received),
            reaction.event == old(self)@.event(received),
            reaction.release_window == old(self)@.releases(received),
    {
        let was_open: bool = self.phase == WorkerPhase::Open;
        match received {
            Some(command) if was_open => self.serve_open(command),
            Some(command) => self.serve_closing(command),
            None => {
                self.phase = if was_open {
                    WorkerPhase::Closing
                } else {
                    WorkerPhase::Finished
                };
                let mut reaction: Reaction<R, S, K, E> = Reaction::nothing();
                reaction.release_window = was_open;
                reaction
            },
        }
    }
}

} // verus!
