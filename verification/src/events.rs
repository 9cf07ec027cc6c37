//! Input events arriving from the terminal and internal events produced for
//! the application's main loop.

use vstd::prelude::*;

verus! {

/// The key that a key press carries, reduced to what the popup reacts to.
#[derive(Clone, Copy, Debug, PartialEq, Eq)]
pub enum KeyCode {
    Enter,
    Esc,
    Backspace,
    Char(char),
    Other,
}

/// A terminal input event as routed to the components.
#[derive(Clone, Copy, Debug, PartialEq, Eq)]
pub enum InputEvent {
    Key(KeyCode),
    Mouse,
    Resize,
}

/// What parts of the application need to refresh after an internal event.
#[derive(Clone, Copy, Debug, PartialEq, Eq)]
pub enum NeedsUpdate {
    All,
}

/// An event pushed onto the internal queue for the main loop to drain.
#[derive(Clone, Debug, PartialEq, Eq)]
pub enum InternalEvent {
    Update(NeedsUpdate),
    ShowErrorMsg(String),
}

/// The mathematical value of an [`InternalEvent`]: the error payload is
/// abstracted to its character sequence.
pub enum InternalEventView {
    Update(NeedsUpdate),
    ShowErrorMsg(Seq<char>),
}

impl View for InternalEvent {
    type V = InternalEventView;

    open spec fn view(&self) -> InternalEventView {
        match self {
            InternalEvent::Update(u) => InternalEventView::Update(*u),
            InternalEvent::ShowErrorMsg(s) => InternalEventView::ShowErrorMsg(s@),
        }
    }
}

} // verus!
