//! The slice of a device's button bindings that the presenter logic reads.

use vstd::prelude::*;

verus! {

/// How the on-screen presenter highlight is drawn.
#[derive(Debug, Clone, Copy, PartialEq, Eq, Structural)]
pub enum HighlightMode {
    /// Brighten a region around the pointer.
    Highlight,
    /// Dim everything but a circle around the pointer.
    Spotlight,
}

/// A physical control of a device that a binding can be attached to.
#[derive(Debug, Clone, Copy, PartialEq, Eq, Structural)]
pub enum ButtonId {
    /// The primary mouse button.
    Left,
    /// The secondary mouse button.
    Right,
    /// The wheel button.
    Middle,
    /// The presenter's front button, the one the highlight toggles on.
    PresenterHighlight,
}

/// What pressing a bound control does.
#[derive(Debug, Clone, Copy, PartialEq, Eq, Structural)]
pub enum Action {
    /// A primary click.
    LeftClick,
    /// A secondary click.
    RightClick,
    /// A wheel click.
    MiddleClick,
    /// Show the presenter highlight in the given mode, or hide it.
    ToggleHighlight(HighlightMode),
}

/// The binding of one control.
#[derive(Debug, Clone, Copy, PartialEq, Eq, Structural)]
pub enum Binding {
    /// One action, run on a click of the control.
    Single(Action),
}

/// The action a binding runs on a plain click.
pub open spec fn spec_click_action(binding: Binding) -> Action {
    match binding {
        Binding::Single(action) => action,
    }
}

impl Binding {
    /// The action this binding runs on a plain click.
    pub fn click_action(self) -> (action: Action)
        ensures
            action == spec_click_action(self),
    {
        match self {
            Binding::Single(action) => action,
        }
    }
}

} // verus!
