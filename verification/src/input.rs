use vstd::prelude::*;

verus! {

/// An input-triggered action of the compositor prototype.
#[derive(Clone, PartialEq, Eq, Debug)]
pub enum Action {
    /// Set a specific workspace to be active.
    WorkspaceSetActive(usize),
    /// Move the active window to a workspace.
    WindowSetWorkspace(usize),
    /// Launch a program.
    Spawn(String),
}

} // verus!
