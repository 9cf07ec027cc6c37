//! Command hints: short descriptors of the actions currently available,
//! shown by the application in its help bar.

use vstd::prelude::*;

verus! {

/// A command hint offered to the user.
#[derive(Clone, Debug, PartialEq, Eq)]
pub struct CommandInfo {
    pub name: String,
    pub enabled: bool,
    pub available: bool,
}

/// The mathematical value of a [`CommandInfo`].
pub struct CommandInfoView {
    pub name: Seq<char>,
    pub enabled: bool,
    pub available: bool,
}

impl View for CommandInfo {
    type V = CommandInfoView;

    open spec fn view(&self) -> CommandInfoView {
        CommandInfoView { name: self.name@, enabled: self.enabled, available: self.available }
    }
}

impl CommandInfo {
    /// Builds a hint from its text and its two flags.
    pub fn new(name: &str, enabled: bool, available: bool) -> (r: CommandInfo)
        ensures
            r@ == (CommandInfoView { name: name@, enabled, available }),
    {
        CommandInfo { name: name.to_owned(), enabled, available }
    }
}

/// Whether a visible component blocks the command hints of its siblings:
/// a visible modal claims exclusive input, so the host must not offer
/// commands of other components while it is open.
#[derive(Clone, Copy, Debug, PartialEq, Eq)]
pub enum CommandBlocking {
    Blocking,
    PassingOn,
}

} // verus!
