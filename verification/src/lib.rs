//! The decisions behind windows that are used through async/await.
//!
//! An application talks to its windows through channels and never sees an event loop. Behind the
//! channels, one worker per window serves the window's commands ([`worker`]), one worker knows all
//! windows ([`runtime`]), and the thread of the event loop creates windows and surfaces
//! ([`application`]). The worker of a window writes to its channels ([`outlets`]), and what holds of
//! it over any run of commands is in [`closing`]. The holders of a window follow its size
//! ([`dimensions`]) and its events ([`window`]), and everyone can follow the lifecycle of the
//! application ([`lifecycle`]). A renderer draws a user interface on a window ([`tegui`]). How a
//! run can fail is in [`error`]. What callers can rely on, over one call or several, is in [`laws`].
//!
//! The types are generic in what only the platform knows: its windows, events and errors.
use vstd::prelude::*;

pub mod application;
pub mod channels;
pub mod closing;
pub mod dimensions;
pub mod error;
pub mod laws;
pub mod lifecycle;
pub mod outlets;
pub mod runtime;
pub mod tegui;
pub mod window;
pub mod worker;

pub use error::{TwwError, TwwFinishError};
pub use lifecycle::{LifecycleStage, LifecycleWatcher};
pub use window::Window;

verus! {

/// How many commands or events a channel between the workers holds.
pub const COMMAND_CHANNEL_DEPTH: usize = 64;

} // verus!
