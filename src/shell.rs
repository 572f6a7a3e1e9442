//! The window-lifecycle state machine: native events are decoded into
//! actions, and a model of the primary window and of the process records what
//! each action does.
use vstd::prelude::*;
use crate::menu::{command_of, CommandId};

verus! {

/// The identifier under which the primary window is looked up.
pub const MAIN_WINDOW: &'static str = "main";

/// The exit code used when the user picks "quit".
pub const QUIT_EXIT_CODE: i32 = 0;

/// An interaction with the tray icon.
#[derive(Debug, Clone, Copy, PartialEq, Eq, Structural)]
pub enum TrayIconEvent {
    /// A primary click on the icon.
    Click,
    /// Any other pointer event (hover, leave, double click, ...).
    Other,
}

/// A native event delivered by the host's event loop.
#[derive(Debug, PartialEq, Eq)]
pub enum Event {
    /// The user asked to close the primary window.
    CloseRequested,
    /// The tray icon was interacted with.
    TrayIcon(TrayIconEvent),
    /// A tray menu entry was selected; it carries the entry's identifier.
    Menu(String),
}

/// What the host must do in answer to an event.
#[derive(Debug, Clone, Copy, PartialEq, Eq, Structural)]
pub enum Action {
    /// Nothing at all.
    Ignore,
    /// Look up the primary window; if it exists, show it and give it focus.
    Reveal,
    /// Hide the primary window and cancel the platform's default close.
    HideAndPreventClose,
    /// Terminate the process with the given code.
    Exit(i32),
}

/// The action that a menu identifier calls for.
pub open spec fn menu_action(id: Seq<char>) -> Action {
    match command_of(id) {
        Some(CommandId::Show) => Action::Reveal,
        Some(CommandId::Quit) => Action::Exit(QUIT_EXIT_CODE),
        None => Action::Ignore,
    }
}

/// The action that a tray-icon interaction calls for.
pub open spec fn tray_action(e: TrayIconEvent) -> Action {
    match e {
        TrayIconEvent::Click => Action::Reveal,
        TrayIconEvent::Other => Action::Ignore,
    }
}

/// The action that an event calls for.
pub open spec fn event_action(e: Event) -> Action {
    match e {
        Event::CloseRequested => Action::HideAndPreventClose,
        Event::TrayIcon(t) => tray_action(t),
        Event::Menu(id) => menu_action(id@),
    }
}

/// Decodes a menu selection: "show" reveals, "quit" exits with code 0, any
/// other identifier is ignored.
pub fn on_menu_event(id: &str) -> (a: Action)
    ensures
        a == menu_action(id@),
{
    match CommandId::from_id(id) {
        Some(CommandId::Show) => Action::Reveal,
        Some(CommandId::Quit) => Action::Exit(QUIT_EXIT_CODE),
        None => Action::Ignore,
    }
}

/// Decodes a tray-icon interaction: a click reveals, anything else is ignored.
pub fn on_tray_icon_event(e: TrayIconEvent) -> (a: Action)
    ensures
        a == tray_action(e),
{
    match e {
        TrayIconEvent::Click => Action::Reveal,
        TrayIconEvent::Other => Action::Ignore,
    }
}

/// Decodes a close request: the window is always hidden and never closed.
pub fn on_close_requested() -> (a: Action)
    ensures
        a == Action::HideAndPreventClose,
{
    Action::HideAndPreventClose
}

/// Decodes any event.
pub fn decide(e: &Event) -> (a: Action)
    ensures
        a == event_action(*e),
{
    match e {
        Event::CloseRequested => on_close_requested(),
        Event::TrayIcon(t) => on_tray_icon_event(*t),
        Event::Menu(id) => on_menu_event(id.as_str()),
    }
}

/// The primary window as the user sees it.
#[derive(Debug, Clone, Copy, PartialEq, Eq, Structural)]
pub struct WindowState {
    pub visible: bool,
    pub focused: bool,
}

/// The shell as a whole: the primary window, if the host has realized it, and
/// the exit code once the process has terminated.
#[derive(Debug, Clone, Copy, PartialEq, Eq, Structural)]
pub struct ShellState {
    pub window: Option<WindowState>,
    pub exit_code: Option<i32>,
}

impl ShellState {
    /// The process has not terminated.
    pub open spec fn is_running(self) -> bool {
        self.exit_code is None
    }

    /// The primary window exists and is shown.
    pub open spec fn is_visible(self) -> bool {
        self.window matches Some(w) && w.visible
    }

    /// The primary window exists and is hidden.
    pub open spec fn is_hidden(self) -> bool {
        self.window matches Some(w) && !w.visible
    }

    /// The state right after startup: the window shown and focused, the process running.
    pub open spec fn initial() -> ShellState {
        ShellState {
            window: Some(WindowState { visible: true, focused: true }),
            exit_code: None,
        }
    }

    /// The state after the host has carried out `a`. Once the process has
    /// terminated nothing changes any more.
    pub open spec fn after(self, a: Action) -> ShellState {
        if !self.is_running() {
            self
        } else {
            match a {
                Action::Ignore => self,
                Action::Reveal => match self.window {
                    Some(_) => ShellState {
                        window: Some(WindowState { visible: true, focused: true }),
                        ..self
                    },
                    None => self,
                },
                Action::HideAndPreventClose => match self.window {
                    Some(_) => ShellState {
                        window: Some(WindowState { visible: false, focused: false }),
                        ..self
                    },
                    None => self,
                },
                Action::Exit(code) => ShellState { exit_code: Some(code), ..self },
            }
        }
    }

    /// The state after one event has been handled.
    pub open spec fn step(self, e: Event) -> ShellState {
        self.after(event_action(e))
    }

    /// The state after a sequence of events has been handled in order.
    pub open spec fn run(self, events: Seq<Event>) -> ShellState
        decreases events.len(),
    {
        if events.len() == 0 {
            self
        } else {
            self.run(events.drop_last()).step(events.last())
        }
    }

    /// The shell at startup.
    pub fn startup() -> (s: ShellState)
        ensures
            s == ShellState::initial(),
    {
        ShellState {
            window: Some(WindowState { visible: true, focused: true }),
            exit_code: None,
        }
    }

    /// Records the effect of the host carrying out `a`.
    pub fn apply(&mut self, a: Action)
        ensures
            *final(self) == old(self).after(a),
    {
        if self.exit_code.is_some() {
            return;
        }
        match a {
            Action::Ignore => {},
            Action::Reveal => {
                if self.window.is_some() {
                    self.window = Some(WindowState { visible: true, focused: true });
                }
            },
            Action::HideAndPreventClose => {
                if self.window.is_some() {
                    self.window = Some(WindowState { visible: false, focused: false });
                }
            },
            Action::Exit(code) => {
                self.exit_code = Some(code);
            },
        }
    }

    /// Decodes one event, records its effect and returns the action to carry out.
    pub fn handle(&mut self, e: &Event) -> (a: Action)
        ensures
            a == event_action(*e),
            *final(self) == old(self).step(*e),
    {
        let a = decide(e);
        self.apply(a);
        a
    }

    /// Handles a sequence of events in order and returns the actions, one per event.
    pub fn handle_events(&mut self, events: &Vec<Event>) -> (r: Vec<Action>)
        ensures
            *final(self) == old(self).run(events@),
            r@.len() == events@.len(),
            forall|i: int| 0 <= i < events@.len() ==> r@[i] == event_action(#[trigger] events@[i]),
    {
        let ghost start = *self;
        let mut r: Vec<Action> = Vec::new();
        let mut i: usize = 0;
        while i < events.len()
            invariant
                i <= events@.len(),
                *self == start.run(events@.subrange(0, i as int)),
                r@.len() == i,
                forall|j: int| 0 <= j < i ==> r@[j] == event_action(#[trigger] events@[j]),
            decreases events@.len() - i,
        {
            let a = self.handle(&events[i]);
            proof {
                let prefix = events@.subrange(0, i + 1);
                assert(prefix.drop_last() == events@.subrange(0, i as int));
                assert(prefix.last() == events@[i as int]);
            }
            r.push(a);
            i = i + 1;
        }
        assert(events@.subrange(0, i as int) == events@);
        r
    }
}

} // verus!
