//! A modal popup for attaching a named tag to a selected commit inside a
//! terminal user interface.
//!
//! The component owns the application's internal event queue handle,
//! composes a single-line text-input widget, remembers which commit is the
//! current target, and implements the confirm/report workflow: on Enter the
//! backend tag operation runs, the popup closes, and exactly one outcome
//! event is queued for the application's main loop.

pub mod command;
pub mod commit_id;
pub mod events;
pub mod queue;
pub mod tag_commit;
pub mod textinput;

use vstd::prelude::*;

verus! {

/// The widget could not become visible. Not recoverable locally: callers of
/// `open` and `show` see it unhandled.
#[derive(Clone, Copy, Debug, PartialEq, Eq)]
pub struct ShowError;

} // verus!

