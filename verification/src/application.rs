//! What the thread of the event loop does with what it gets.
use vstd::prelude::*;

use crate::error::TwwError;
use crate::runtime::RuntimeCommand;
use crate::worker::{WindowCommand, WindowEvent};

verus! {

/// What the event loop can be told.
///
/// `Q` answers a request for a window with attributes `A`. `S` answers one for a surface of the
/// window `W`.
#[derive(Debug)]
pub enum WinitCommand<Q, A, S, W> {
    CreateWindow { responder: Q, attributes: A },
    CreateWindowSurface { responder: S, window: W },
}

/// What becomes of a request for a window.
#[derive(Debug)]
pub enum WindowRequest<Q, W, C, X> {
    /// The window exists: tell the worker behind all windows.
    Register { command: RuntimeCommand<Q, W, C> },
    /// There is no window: answer with the error.
    Refuse { responder: Q, error: X },
}

/// An event of a window goes to the worker of that window.
pub fn window_event<Q, W, R, S, K, E>(
    window_id: u64,
    event: WindowEvent<K>,
    full: E,
) -> (command: RuntimeCommand<Q, W, WindowCommand<R, S, K, E>>)
    ensures
        command == (RuntimeCommand::<Q, W, WindowCommand<R, S, K, E>>::WindowCommand {
            window_id,
            command: WindowCommand::WinitWindowEvent { event, full },
        }),
{
    RuntimeCommand::WindowCommand {
        window_id,
        command: WindowCommand::WinitWindowEvent { event, full },
    }
}

/// What follows from the attempt to create a window: a window is registered, an error of the
/// operating system goes back to the one that asked.
pub fn window_created<Q, W, C, O, S>(responder: Q, created: Result<W, O>) -> (request: WindowRequest<
    Q,
    W,
    C,
    TwwError<O, S>,
>)
    ensures
        request == match created {
            Ok(window) => WindowRequest::<Q, W, C, TwwError<O, S>>::Register {
                command: RuntimeCommand::RegisterWindow { responder, window },
            },
            Err(source) => WindowRequest::Refuse { responder, error: TwwError::Os { source } },
        },
{
    match created {
        Ok(window) => WindowRequest::Register {
            command: RuntimeCommand::RegisterWindow { responder, window },
        },
        Err(source) => WindowRequest::Refuse { responder, error: TwwError::Os { source } },
    }
}

/// The answer to a request for a surface.
pub fn surface_created<F, O, S>(created: Result<F, S>) -> (answer: Result<F, TwwError<O, S>>)
    ensures
        answer == match created {
            Ok(surface) => Ok::<F, TwwError<O, S>>(surface),
            Err(source) => Err(TwwError::CreateWindowSurface { source }),
        },
{
    match created {
        Ok(surface) => Ok(surface),
        Err(source) => Err(TwwError::CreateWindowSurface { source }),
    }
}

} // verus!
