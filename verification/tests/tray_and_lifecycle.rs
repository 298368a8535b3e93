use invoices_host::lifecycle::{HostAction, HostState, UiEvent, Visibility};
use invoices_host::supervisor::{sidecar_program, Supervisor};
use invoices_host::tray::{classify_menu_id, tray_menu_entries, tray_tooltip, MenuAction};

#[test]
fn classify_recognises_quit() {
    assert_eq!(classify_menu_id("quit"), MenuAction::Quit);
}

#[test]
fn classify_recognises_show() {
    assert_eq!(classify_menu_id("show"), MenuAction::Show);
}

#[test]
fn classify_ignores_other_identifiers() {
    assert_eq!(classify_menu_id("settings"), MenuAction::Unknown);
    assert_eq!(classify_menu_id(""), MenuAction::Unknown);
    assert_eq!(classify_menu_id("QUIT"), MenuAction::Unknown);
    assert_eq!(classify_menu_id("shown"), MenuAction::Unknown);
    assert_eq!(classify_menu_id("quit "), MenuAction::Unknown);
}

#[test]
fn menu_has_show_then_quit() {
    let entries = tray_menu_entries();
    assert_eq!(entries.len(), 2);
    assert_eq!(entries[0].id, "show");
    assert_eq!(entries[0].label, "Open Invoices");
    assert_eq!(entries[1].id, "quit");
    assert_eq!(entries[1].label, "Quit Invoices");
}

#[test]
fn tooltip_names_the_application() {
    assert_eq!(tray_tooltip(), "Invoices – Kontrolní hlášení DPH");
}

#[test]
fn startup_state_is_visible_and_running() {
    let s = HostState::init();
    assert_eq!(s.visibility, Visibility::Visible);
    assert!(s.running);
}

#[test]
fn close_request_hides_but_keeps_running() {
    let mut s = HostState::init();
    let action = s.step(UiEvent::CloseRequested);
    assert_eq!(action, HostAction::PreventCloseAndHide);
    assert_eq!(s.visibility, Visibility::Hidden);
    assert!(s.running);
}

#[test]
fn close_then_show_round_trip() {
    // visible -> hidden -> visible, with the window foregrounded at the end.
    let mut s = HostState::init();
    assert_eq!(s.visibility, Visibility::Visible);
    let hide = s.step(UiEvent::CloseRequested);
    assert_eq!(hide, HostAction::PreventCloseAndHide);
    assert_eq!(s.visibility, Visibility::Hidden);
    let show = s.step(UiEvent::Menu(MenuAction::Show));
    assert_eq!(show, HostAction::ShowAndFocus);
    assert_eq!(s.visibility, Visibility::Visible);
    assert!(s.running);
}

#[test]
fn quit_exits_with_status_zero_when_visible() {
    let mut s = HostState::init();
    let action = s.step(UiEvent::Menu(MenuAction::Quit));
    assert_eq!(action, HostAction::Exit(0));
    assert!(!s.running);
}

#[test]
fn quit_exits_with_status_zero_when_hidden() {
    let mut s = HostState::init();
    s.step(UiEvent::CloseRequested);
    let action = s.step(UiEvent::Menu(MenuAction::Quit));
    assert_eq!(action, HostAction::Exit(0));
    assert!(!s.running);
}

#[test]
fn unknown_menu_entry_changes_nothing() {
    let mut s = HostState::init();
    let before = s;
    let action = s.step(UiEvent::Menu(MenuAction::Unknown));
    assert_eq!(action, HostAction::Ignore);
    assert_eq!(s, before);
}

#[test]
fn dispatch_menu_classifies_at_the_boundary() {
    let mut s = HostState::init();
    s.step(UiEvent::CloseRequested);
    assert_eq!(s.dispatch_menu("show"), HostAction::ShowAndFocus);
    assert_eq!(s.visibility, Visibility::Visible);
    assert_eq!(s.dispatch_menu("autostart"), HostAction::Ignore);
    assert_eq!(s.dispatch_menu("quit"), HostAction::Exit(0));
    assert!(!s.running);
}

#[test]
fn production_spawns_exactly_once() {
    let mut sup = Supervisor::new();
    assert!(!sup.spawned);
    assert!(sup.plan_spawn(true));
    assert!(sup.spawned);
    assert!(!sup.plan_spawn(true));
    assert!(sup.spawned);
}

#[test]
fn development_never_spawns() {
    let mut sup = Supervisor::new();
    assert!(!sup.plan_spawn(false));
    assert!(!sup.spawned);
    assert!(!sup.plan_spawn(false));
    assert!(!sup.spawned);
}

#[test]
fn sidecar_program_path() {
    assert_eq!(sidecar_program(), "sidecar/invoices-sidecar");
}
