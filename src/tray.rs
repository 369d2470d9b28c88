//! The tray controller: it debounces clicks on the tray icon and turns
//! tray and menu events into actions.
use vstd::prelude::*;
use vstd::string::StringExecFns;

use crate::panel::{toggled, PanelState};

verus! {

/// Clicks closer than this many milliseconds to the last accepted one
/// are discarded.
pub const DEBOUNCE_MS: u64 = 300;

/// The id of the menu entry that shows or hides the panel.
pub const SHOW_ITEM_ID: &'static str = "show";

/// The id of the menu entry that ends the process.
pub const QUIT_ITEM_ID: &'static str = "quit";

/// The exit code of a quit from the menu.
pub const QUIT_EXIT_CODE: i32 = 0;

/// The button a tray click was made with.
#[derive(Clone, Copy, Debug, PartialEq, Eq, Structural)]
pub enum MouseButton {
    Left,
    Right,
    Middle,
}

/// What the host is asked to do after a tray or menu event.
#[derive(Clone, Copy, Debug, PartialEq, Eq, Structural)]
pub enum TrayAction {
    /// Nothing.
    Ignore,
    /// Toggle the panel.
    TogglePanel,
    /// End the process with the given exit code.
    Exit(i32),
}

/// Owns the debounce timestamp: the time, in milliseconds on the host's
/// monotonic clock, of the last accepted click.
#[derive(Clone, Copy, Debug, PartialEq, Eq, Structural)]
pub struct TrayController {
    pub last_click_ms: u64,
}

/// Milliseconds from `last` to `now`; zero when `now` is not later.
pub open spec fn elapsed(last: u64, now: u64) -> int {
    if now >= last { now - last } else { 0 }
}

/// Whether a click at `now` is discarded, the last accepted one being at `last`.
pub open spec fn debounced(last: u64, now: u64) -> bool {
    elapsed(last, now) < DEBOUNCE_MS
}

/// The debounce timestamp after a click at `now`.
pub open spec fn last_after_click(last: u64, now: u64) -> u64 {
    if debounced(last, now) { last } else { now }
}

/// The action of a click made with `button` at `now`.
pub open spec fn click_action(last: u64, button: MouseButton, now: u64) -> TrayAction {
    if !debounced(last, now) && button == MouseButton::Left {
        TrayAction::TogglePanel
    } else {
        TrayAction::Ignore
    }
}

/// The action of selecting the menu entry with id `id`.
pub open spec fn menu_action(id: Seq<char>) -> TrayAction {
    if id == QUIT_ITEM_ID@ {
        TrayAction::Exit(QUIT_EXIT_CODE)
    } else if id == SHOW_ITEM_ID@ {
        TrayAction::TogglePanel
    } else {
        TrayAction::Ignore
    }
}

/// The panel's state once the host has carried out `a`.
pub open spec fn panel_after(p: PanelState, a: TrayAction) -> PanelState {
    match a {
        TrayAction::TogglePanel => toggled(p),
        _ => p,
    }
}

impl TrayController {
    /// A controller whose debounce timestamp is `start_ms`, the time the
    /// process started.
    pub fn new(start_ms: u64) -> (r: TrayController)
        ensures
            r.last_click_ms == start_ms,
    {
        TrayController { last_click_ms: start_ms }
    }

    /// Handles a click on the tray icon made with `button` at `now_ms`.
    /// A click within the debounce window of the last accepted one is
    /// discarded; any other click becomes the last accepted one, and a
    /// primary-button click toggles the panel.
    pub fn on_click(&mut self, button: MouseButton, now_ms: u64) -> (r: TrayAction)
        ensures
            final(self).last_click_ms == last_after_click(old(self).last_click_ms, now_ms),
            r == click_action(old(self).last_click_ms, button, now_ms),
    {
        let since: u64 = if now_ms >= self.last_click_ms {
            now_ms - self.last_click_ms
        } else {
            0
        };
        if since < DEBOUNCE_MS {
            return TrayAction::Ignore;
        }
        self.last_click_ms = now_ms;
        match button {
            MouseButton::Left => TrayAction::TogglePanel,
            _ => TrayAction::Ignore,
        }
    }

    /// Handles the selection of the menu entry `id`. Menu selections are
    /// not debounced and leave the debounce timestamp as it is.
    pub fn on_menu(&self, id: &str) -> (r: TrayAction)
        ensures
            r == menu_action(id@),
    {
        let selected = String::from_str(id);
        if selected == String::from_str(QUIT_ITEM_ID) {
            TrayAction::Exit(QUIT_EXIT_CODE)
        } else if selected == String::from_str(SHOW_ITEM_ID) {
            TrayAction::TogglePanel
        } else {
            TrayAction::Ignore
        }
    }
}

/// Two primary clicks, the first accepted, less than the debounce window
/// apart: the second is discarded, so the panel makes exactly one
/// transition.
pub proof fn lemma_close_clicks_toggle_once(last: u64, t1: u64, t2: u64, p: PanelState)
    requires
        !debounced(last, t1),
        t1 <= t2,
        t2 - t1 < DEBOUNCE_MS,
    ensures
        click_action(last, MouseButton::Left, t1) == TrayAction::TogglePanel,
        click_action(last_after_click(last, t1), MouseButton::Left, t2) == TrayAction::Ignore,
        panel_after(
            panel_after(p, click_action(last, MouseButton::Left, t1)),
            click_action(last_after_click(last, t1), MouseButton::Left, t2),
        ) == toggled(p),
{
}

/// Two primary clicks, the first accepted, at least the debounce window
/// apart: each toggles the panel, so it makes two transitions.
pub proof fn lemma_spaced_clicks_toggle_twice(last: u64, t1: u64, t2: u64, p: PanelState)
    requires
        !debounced(last, t1),
        t2 >= t1 + DEBOUNCE_MS,
    ensures
        click_action(last, MouseButton::Left, t1) == TrayAction::TogglePanel,
        click_action(last_after_click(last, t1), MouseButton::Left, t2) == TrayAction::TogglePanel,
        panel_after(
            panel_after(p, click_action(last, MouseButton::Left, t1)),
            click_action(last_after_click(last, t1), MouseButton::Left, t2),
        ) == p,
{
}

/// Selecting the show entry toggles the panel every time, however close
/// together the selections are, and leaves the debounce timestamp alone:
/// two selections make two transitions.
pub proof fn lemma_menu_show_not_debounced(p: PanelState)
    ensures
        menu_action(SHOW_ITEM_ID@) == TrayAction::TogglePanel,
        panel_after(p, menu_action(SHOW_ITEM_ID@)) == toggled(p),
        panel_after(panel_after(p, menu_action(SHOW_ITEM_ID@)), menu_action(SHOW_ITEM_ID@)) == p,
{
    reveal_strlit("show");
    reveal_strlit("quit");
    assert(SHOW_ITEM_ID@[0] != QUIT_ITEM_ID@[0]);
}

/// A click with any button but the primary one never changes the panel.
pub proof fn lemma_other_button_no_transition(
    last: u64,
    button: MouseButton,
    now: u64,
    p: PanelState,
)
    requires
        button != MouseButton::Left,
    ensures
        click_action(last, button, now) == TrayAction::Ignore,
        panel_after(p, click_action(last, button, now)) == p,
{
}

} // verus!
