use sticky_note::panel::PanelState;
use sticky_note::tray::{MouseButton, TrayAction, TrayController, DEBOUNCE_MS, QUIT_ITEM_ID, SHOW_ITEM_ID};

fn apply(p: PanelState, a: TrayAction) -> PanelState {
    match a {
        TrayAction::TogglePanel => p.toggle(),
        _ => p,
    }
}

#[test]
fn close_clicks_make_one_transition() {
    let mut c = TrayController::new(0);
    let mut p = PanelState::Hidden;
    let a1 = c.on_click(MouseButton::Left, 1000);
    let a2 = c.on_click(MouseButton::Left, 1299);
    assert_eq!(a1, TrayAction::TogglePanel);
    assert_eq!(a2, TrayAction::Ignore);
    p = apply(p, a1);
    p = apply(p, a2);
    assert_eq!(p, PanelState::Visible);
    assert_eq!(c.last_click_ms, 1000);
}

#[test]
fn spaced_clicks_make_two_transitions() {
    let mut c = TrayController::new(0);
    let mut p = PanelState::Hidden;
    let a1 = c.on_click(MouseButton::Left, 1000);
    let a2 = c.on_click(MouseButton::Left, 1000 + DEBOUNCE_MS);
    assert_eq!(a1, TrayAction::TogglePanel);
    assert_eq!(a2, TrayAction::TogglePanel);
    p = apply(p, a1);
    assert_eq!(p, PanelState::Visible);
    p = apply(p, a2);
    assert_eq!(p, PanelState::Hidden);
    assert_eq!(c.last_click_ms, 1300);
}

#[test]
fn click_right_after_start_is_discarded() {
    let mut c = TrayController::new(500);
    assert_eq!(c.on_click(MouseButton::Left, 799), TrayAction::Ignore);
    assert_eq!(c.last_click_ms, 500);
    assert_eq!(c.on_click(MouseButton::Left, 800), TrayAction::TogglePanel);
    assert_eq!(c.last_click_ms, 800);
}

#[test]
fn clock_going_back_counts_as_no_time() {
    let mut c = TrayController::new(5000);
    assert_eq!(c.on_click(MouseButton::Left, 10), TrayAction::Ignore);
    assert_eq!(c.last_click_ms, 5000);
}

#[test]
fn other_buttons_do_not_toggle() {
    let mut c = TrayController::new(0);
    let p = PanelState::Visible;
    let a = c.on_click(MouseButton::Right, 1000);
    assert_eq!(a, TrayAction::Ignore);
    assert_eq!(apply(p, a), PanelState::Visible);
    let b = c.on_click(MouseButton::Middle, 5000);
    assert_eq!(b, TrayAction::Ignore);
    assert_eq!(apply(p, b), PanelState::Visible);
}

#[test]
fn accepted_other_button_click_restarts_window() {
    let mut c = TrayController::new(0);
    assert_eq!(c.on_click(MouseButton::Right, 1000), TrayAction::Ignore);
    assert_eq!(c.last_click_ms, 1000);
    assert_eq!(c.on_click(MouseButton::Left, 1100), TrayAction::Ignore);
}

#[test]
fn menu_show_is_not_debounced() {
    let mut c = TrayController::new(0);
    let mut p = PanelState::Hidden;
    assert_eq!(c.on_click(MouseButton::Left, 1000), TrayAction::TogglePanel);
    p = p.toggle();
    let m1 = c.on_menu(SHOW_ITEM_ID);
    let m2 = c.on_menu("show");
    assert_eq!(m1, TrayAction::TogglePanel);
    assert_eq!(m2, TrayAction::TogglePanel);
    p = apply(p, m1);
    assert_eq!(p, PanelState::Hidden);
    p = apply(p, m2);
    assert_eq!(p, PanelState::Visible);
    assert_eq!(c.last_click_ms, 1000);
}

#[test]
fn menu_quit_exits_with_zero() {
    let c = TrayController::new(0);
    assert_eq!(c.on_menu(QUIT_ITEM_ID), TrayAction::Exit(0));
    assert_eq!(c.on_menu("quit"), TrayAction::Exit(0));
}

#[test]
fn unknown_menu_entry_does_nothing() {
    let c = TrayController::new(0);
    assert_eq!(c.on_menu(""), TrayAction::Ignore);
    assert_eq!(c.on_menu("Show"), TrayAction::Ignore);
    assert_eq!(c.on_menu("quitx"), TrayAction::Ignore);
}
