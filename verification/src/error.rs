//! What can go wrong, and how a run of the application ends.
use vstd::prelude::*;

verus! {

/// An error of the library.
///
/// `O` is what the operating system layer reports and `S` what the graphics layer reports.
#[derive(Clone, Debug)]
pub enum TwwError<O, S> {
    /// The operating system refused to create a window.
    Os { source: O },
    /// The window has been closed.
    TwwWindowClosed,
    /// No surface could be created for a window.
    CreateWindowSurface { source: S },
}

/// How a run of the application failed.
///
/// `E` is the error of the user's main, `L` that of the event loop and `M` what the result of the
/// user's main can still be had from.
#[derive(Debug)]
pub enum TwwFinishError<E, O, S, L, M> {
    /// The library failed.
    Tww { source: TwwError<O, S> },
    /// The event loop failed. The user's main may still be running.
    WinitEventLoop { source: L, main_result: M },
    /// The user's main returned an error.
    UserMainError { source: E },
    /// The user's main panicked.
    UserMainPanic,
}

impl<O, S> TwwError<O, S> {
    /// The message of the error, given the text of its source.
    pub open spec fn spec_message(&self, source: Seq<char>) -> Seq<char> {
        match self {
            TwwError::Os { .. } => "OS error: "@ + source,
            TwwError::TwwWindowClosed => "tww window closed"@,
            TwwError::CreateWindowSurface { .. } => "create window surface error: "@ + source,
        }
    }

    /// The message of the error, given the text of its source. An error without a source ignores
    /// the text.
    pub fn message(&self, source: &str) -> (text: String)
        ensures
            text@ == self.spec_message(source@),
    {
        match self {
            TwwError::Os { .. } => "OS error: ".to_owned().concat(source),
            TwwError::TwwWindowClosed => "tww window closed".to_owned(),
            TwwError::CreateWindowSurface { .. } => {
                "create window surface error: ".to_owned().concat(source)
            },
        }
    }
}

impl<E, O, S, L, M> TwwFinishError<E, O, S, L, M> {
    /// The message of the error, given the text of its source.
    pub open spec fn spec_message(&self, source: Seq<char>) -> Seq<char> {
        match self {
            TwwFinishError::Tww { .. } => "tww error: "@ + source,
            TwwFinishError::WinitEventLoop { .. } => "winit event loop error: "@ + source,
            TwwFinishError::UserMainError { .. } => "user main error: "@ + source,
            TwwFinishError::UserMainPanic => "user main panic"@,
        }
    }

    /// The message of the error, given the text of its source. An error without a source ignores
    /// the text.
    pub fn message(&self, source: &str) -> (text: String)
        ensures
            text@ == self.spec_message(source@),
    {
        match self {
            TwwFinishError::Tww { .. } => "tww error: ".to_owned().concat(source),
            TwwFinishError::WinitEventLoop { .. } => {
                "winit event loop error: ".to_owned().concat(source)
            },
            TwwFinishError::UserMainError { .. } => "user main error: ".to_owned().concat(source),
            TwwFinishError::UserMainPanic => "user main panic".to_owned(),
        }
    }
}

/// What a run comes to once the event loop has returned.
///
/// A failure of the event loop ends the run and hands on the place where the result of the user's
/// main will appear. Otherwise that place is where to wait for it.
pub fn event_loop_finished<E, O, S, L, M>(run: Result<(), L>, main_result: M) -> (waiting: Result<
    M,
    TwwFinishError<E, O, S, L, M>,
>)
    ensures
        waiting == match run {
            Ok(()) => Ok::<M, TwwFinishError<E, O, S, L, M>>(main_result),
            Err(source) => Err(TwwFinishError::WinitEventLoop { source, main_result }),
        },
{
    match run {
        Ok(()) => Ok(main_result),
        Err(source) => Err(TwwFinishError::WinitEventLoop { source, main_result }),
    }
}

/// What a run comes to once the result of the user's main has arrived, or can no longer arrive.
///
/// The sending end is dropped without a result only if the user's main panicked.
pub fn user_main_finished<T, E, O, S, L, M, D>(received: Result<Result<T, E>, D>) -> (finished: Result<
    T,
    TwwFinishError<E, O, S, L, M>,
>)
    ensures
        finished == match received {
            Ok(Ok(value)) => Ok::<T, TwwFinishError<E, O, S, L, M>>(value),
            Ok(Err(source)) => Err(TwwFinishError::UserMainError { source }),
            Err(_) => Err(TwwFinishError::UserMainPanic),
        },
{
    match received {
        Ok(Ok(value)) => Ok(value),
        Ok(Err(source)) => Err(TwwFinishError::UserMainError { source }),
        Err(_) => Err(TwwFinishError::UserMainPanic),
    }
}

} // verus!
