//! What the main window does when it is toggled or asked to hide.

use vstd::prelude::*;
use crate::text::str_eq;

verus! {

/// Under which name the pin of the window is stored.
pub const PINNED_WINDOW_KEY: &'static str = "pinned_window";

/// What is done to the main window.
#[derive(Clone, Copy, Debug, PartialEq, Eq, Structural)]
pub enum WindowAction {
    /// Leave the window as it is.
    Nothing,
    /// Bring the window to the front.
    Focus,
    /// Hide the window.
    Hide,
    /// Show the window and bring it to the front.
    ShowAndFocus,
}

/// Whether the stored setting pins the window: it does where it reads
/// `true`.
pub fn is_pinned(setting: Option<&str>) -> (pinned: bool)
    ensures
        pinned == (setting matches Some(value) && value@ == "true"@),
{
    match setting {
        Some(value) => str_eq(value, "true"),
        None => false,
    }
}

/// What a toggle does: a hidden window is shown; a visible one is hidden,
/// unless it is pinned, and then brought to the front.
pub open spec fn toggled(visible: bool, pinned: bool) -> WindowAction {
    if !visible {
        WindowAction::ShowAndFocus
    } else if pinned {
        WindowAction::Focus
    } else {
        WindowAction::Hide
    }
}

/// Computes [`toggled`].
pub fn toggle_action(visible: bool, pinned: bool) -> (action: WindowAction)
    ensures
        action == toggled(visible, pinned),
{
    if !visible {
        WindowAction::ShowAndFocus
    } else if pinned {
        WindowAction::Focus
    } else {
        WindowAction::Hide
    }
}

/// What a request to hide does: nothing to a pinned window.
pub fn hide_action(pinned: bool) -> (action: WindowAction)
    ensures
        action == if pinned {
            WindowAction::Nothing
        } else {
            WindowAction::Hide
        },
{
    if pinned {
        WindowAction::Nothing
    } else {
        WindowAction::Hide
    }
}

} // verus!
