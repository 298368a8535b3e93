//! The window's show/hide lifecycle and the dispatch of tray events.
//!
//! A single main window exists for the whole life of the process.  Closing it
//! must not end the application: every close request is intercepted and turned
//! into a hide, and the tray's "show" entry is the one way back to a visible
//! window.  The tray's "quit" entry is the one path to process termination,
//! always with exit status 0.
//!
//! [`HostState`] is the supervisor's view of that lifecycle; [`HostState::step`]
//! is the whole decision logic.  The surrounding binary owns the real window
//! and process: it feeds each platform event in as a [`UiEvent`] and carries
//! out the returned [`HostAction`] (hide, show-and-focus, or exit).  All
//! events arrive serialised on the single UI event thread, so one step runs
//! at a time.

use vstd::prelude::*;
use crate::tray::MenuAction;

verus! {

/// Whether the main window is shown on screen.  The window itself is never
/// destroyed while the process runs; it only moves between these two states.
#[derive(Clone, Copy, Debug, PartialEq, Eq, Structural)]
pub enum Visibility {
    Visible,
    Hidden,
}

/// An event the platform hands to the supervisor.
#[derive(Clone, Copy, Debug, PartialEq, Eq, Structural)]
pub enum UiEvent {
    /// The user asked to close the main window.
    CloseRequested,
    /// A tray-menu entry was selected, already classified at the boundary.
    Menu(MenuAction),
}

/// What the binary must do after a step.
#[derive(Clone, Copy, Debug, PartialEq, Eq, Structural)]
pub enum HostAction {
    /// Suppress the platform's default close and hide the window instead.
    PreventCloseAndHide,
    /// Show the main window and bring it to the foreground.
    ShowAndFocus,
    /// Terminate the process with the given exit status.
    Exit(i32),
    /// Do nothing.
    Ignore,
}

/// The supervisor's state: the window's visibility, and whether the process
/// is still to keep running (it stops only through the "quit" entry).
#[derive(Clone, Copy, Debug, PartialEq, Eq, Structural)]
pub struct HostState {
    pub visibility: Visibility,
    pub running: bool,
}

/// One transition of the lifecycle: the state after the event and the action
/// the binary must carry out.
pub open spec fn step_spec(s: HostState, event: UiEvent) -> (HostState, HostAction) {
    match event {
        UiEvent::CloseRequested => (
            HostState { visibility: Visibility::Hidden, ..s },
            HostAction::PreventCloseAndHide,
        ),
        UiEvent::Menu(MenuAction::Show) => (
            HostState { visibility: Visibility::Visible, ..s },
            HostAction::ShowAndFocus,
        ),
        UiEvent::Menu(MenuAction::Quit) => (HostState { running: false, ..s }, HostAction::Exit(0)),
        UiEvent::Menu(MenuAction::Unknown) => (s, HostAction::Ignore),
    }
}

impl HostState {
    /// The state at startup: the window is created visible and the process
    /// runs.
    pub fn init() -> (s: HostState)
        ensures
            s == (HostState { visibility: Visibility::Visible, running: true }),
    {
        HostState { visibility: Visibility::Visible, running: true }
    }

    /// Handles one platform event.  Events are only delivered while the
    /// process runs: "quit" is terminal, nothing is dispatched after it.
    ///
    /// A close request always hides the window and never stops the process;
    /// "show" always makes the window visible and focused; "quit" stops the
    /// process with exit status 0 from any visibility; an unknown menu entry
    /// changes nothing.
    pub fn step(&mut self, event: UiEvent) -> (action: HostAction)
        requires
            old(self).running,
        ensures
            (*final(self), action) == step_spec(*old(self), event),
    {
        match event {
            UiEvent::CloseRequested => {
                self.visibility = Visibility::Hidden;
                HostAction::PreventCloseAndHide
            },
            UiEvent::Menu(MenuAction::Show) => {
                self.visibility = Visibility::Visible;
                HostAction::ShowAndFocus
            },
            UiEvent::Menu(MenuAction::Quit) => {
                self.running = false;
                HostAction::Exit(0)
            },
            UiEvent::Menu(MenuAction::Unknown) => HostAction::Ignore,
        }
    }

    /// Handles a tray-menu event as it arrives from the platform: classifies
    /// the string identifier at the boundary, then steps.
    pub fn dispatch_menu(&mut self, id: &str) -> (action: HostAction)
        requires
            old(self).running,
        ensures
            (*final(self), action) == step_spec(
                *old(self),
                UiEvent::Menu(crate::tray::classify_spec(id@)),
            ),
    {
        let menu_action = crate::tray::classify_menu_id(id);
        self.step(UiEvent::Menu(menu_action))
    }
}

/// After any close request the window is hidden and the process still runs:
/// closing never terminates the host.
pub proof fn lemma_close_request_hides_only(s: HostState)
    requires
        s.running,
    ensures
        step_spec(s, UiEvent::CloseRequested).0.visibility == Visibility::Hidden,
        step_spec(s, UiEvent::CloseRequested).0.running,
        step_spec(s, UiEvent::CloseRequested).1 == HostAction::PreventCloseAndHide,
{
}

/// "show" dispatched after a close request makes the window visible again
/// and brings it to the foreground: hide is always reversible.
pub proof fn lemma_show_after_close_restores(s: HostState)
    requires
        s.running,
    ensures
        ({
            let hidden = step_spec(s, UiEvent::CloseRequested).0;
            let (shown, action) = step_spec(hidden, UiEvent::Menu(MenuAction::Show));
            shown.visibility == Visibility::Visible && shown.running && action
                == HostAction::ShowAndFocus
        }),
{
}

/// "quit" terminates the process with exit status 0 from any visibility
/// state, and no other event stops the process.
pub proof fn lemma_quit_is_the_only_exit(s: HostState, event: UiEvent)
    requires
        s.running,
    ensures
        event == UiEvent::Menu(MenuAction::Quit) ==> step_spec(s, event).1 == HostAction::Exit(0)
            && !step_spec(s, event).0.running,
        event != UiEvent::Menu(MenuAction::Quit) ==> step_spec(s, event).0.running && forall|
            code: i32,
        | step_spec(s, event).1 != HostAction::Exit(code),
{
}

} // verus!
