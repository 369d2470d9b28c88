//! The panel's show/hide state machine and where it is placed when shown.
use vstd::prelude::*;

use crate::error::CommandError;

verus! {

/// The host's label of the panel window.
pub const PANEL_LABEL: &'static str = "panel-window";

/// The event sent to the front end each time the panel is shown.
pub const PANEL_SHOWN_EVENT: &'static str = "panel-shown";

/// Distance, in logical pixels, of the panel's left edge back from the
/// middle of the monitor's width.
pub const PANEL_RIGHT_MARGIN: i32 = 340;

/// Distance, in logical pixels, of the panel's top edge below the top of
/// the screen, which keeps it clear of the menu bar.
pub const PANEL_TOP_OFFSET: i32 = 30;

/// Whether the panel is on screen.
#[derive(Clone, Copy, Debug, PartialEq, Eq, Structural)]
pub enum PanelState {
    Hidden,
    Visible,
}

/// What the host is asked to do with the panel on a toggle request.
#[derive(Clone, Copy, Debug, PartialEq, Eq, Structural)]
pub enum ToggleAction {
    /// Hide the panel.
    Hide,
    /// Move the panel to its anchor (best effort), show it without giving
    /// it focus, and send the panel-shown event.
    Show,
}

/// A position in logical pixels.
#[derive(Clone, Copy, Debug, PartialEq, Eq, Structural)]
pub struct PanelPosition {
    pub x: i32,
    pub y: i32,
}

/// The state a toggle request leads to.
pub open spec fn toggled(s: PanelState) -> PanelState {
    match s {
        PanelState::Hidden => PanelState::Visible,
        PanelState::Visible => PanelState::Hidden,
    }
}

/// The action a toggle request takes from state `s`.
pub open spec fn action_for(s: PanelState) -> ToggleAction {
    match s {
        PanelState::Hidden => ToggleAction::Show,
        PanelState::Visible => ToggleAction::Hide,
    }
}

/// The state the panel is in once the host has carried out `a`.
pub open spec fn state_after(a: ToggleAction) -> PanelState {
    match a {
        ToggleAction::Hide => PanelState::Hidden,
        ToggleAction::Show => PanelState::Visible,
    }
}

impl PanelState {
    /// The state the host reports through its visibility query.
    pub fn from_visible(visible: bool) -> (r: PanelState)
        ensures
            r == (if visible { PanelState::Visible } else { PanelState::Hidden }),
    {
        if visible {
            PanelState::Visible
        } else {
            PanelState::Hidden
        }
    }

    /// The state a toggle request leads to.
    pub fn toggle(self) -> (r: PanelState)
        ensures
            r == toggled(self),
    {
        match self {
            PanelState::Hidden => PanelState::Visible,
            PanelState::Visible => PanelState::Hidden,
        }
    }
}

/// Decides a toggle request from what the host answered: `None` when the
/// panel window is not registered, else the outcome of asking whether it
/// is visible. A failed query makes no transition and is a host error.
pub fn plan_toggle(visibility: Option<Result<bool, String>>) -> (r: Result<ToggleAction, CommandError>)
    ensures
        match visibility {
            None => r matches Err(e) && e is NotFound,
            Some(Ok(visible)) => r == Ok::<ToggleAction, CommandError>(
                action_for(if visible { PanelState::Visible } else { PanelState::Hidden }),
            ),
            Some(Err(detail)) => r matches Err(e) && e == (CommandError::Host { detail }),
        },
{
    match visibility {
        None => Err(CommandError::NotFound),
        Some(queried) => {
            let visible = crate::error::host_step(queried)?;
            if visible {
                Ok(ToggleAction::Hide)
            } else {
                Ok(ToggleAction::Show)
            }
        },
    }
}

/// Where the panel goes when shown on a monitor `monitor_width` physical
/// pixels wide: toward the right of the screen, just below the menu bar.
pub fn anchor_position(monitor_width: u32) -> (r: PanelPosition)
    ensures
        r.x == monitor_width / 2 - PANEL_RIGHT_MARGIN,
        r.y == PANEL_TOP_OFFSET,
{
    let half: u32 = monitor_width / 2;
    PanelPosition { x: half as i32 - PANEL_RIGHT_MARGIN, y: PANEL_TOP_OFFSET }
}

/// The action taken on a toggle request always moves the panel to the
/// other state.
pub proof fn lemma_action_toggles(s: PanelState)
    ensures
        state_after(action_for(s)) == toggled(s),
{
}

/// A toggle from `Hidden` shows the panel, and a second toggle hides it
/// again: two toggles in a row leave the panel as it was.
pub proof fn lemma_toggle_twice(s: PanelState)
    ensures
        toggled(PanelState::Hidden) == PanelState::Visible,
        toggled(toggled(s)) == s,
        state_after(action_for(state_after(action_for(s)))) == s,
{
}

} // verus!
