//! Properties of the state machine that hold over every input and every
//! sequence of events.
use vstd::prelude::*;
use crate::menu::{command_of, CommandId};
use crate::shell::{event_action, Action, Event, ShellState, QUIT_EXIT_CODE};

verus! {

/// The event is the selection of the "quit" menu entry.
pub open spec fn is_quit(e: Event) -> bool {
    e matches Event::Menu(id) && command_of(id@) == Some(CommandId::Quit)
}

/// Closing the window, any number of times, never ends the process and never
/// destroys the window: after at least one close request an existing window is
/// hidden.
pub proof fn lemma_close_requests_never_exit(s: ShellState, events: Seq<Event>)
    requires
        s.is_running(),
        forall|i: int| 0 <= i < events.len() ==> #[trigger] events[i] == Event::CloseRequested,
    ensures
        s.run(events).is_running(),
        s.run(events).window.is_some() == s.window.is_some(),
        events.len() > 0 && s.window.is_some() ==> s.run(events).is_hidden(),
    decreases events.len(),
{
    if events.len() > 0 {
        let prev = events.drop_last();
        assert forall|i: int| 0 <= i < prev.len() implies #[trigger] prev[i] == Event::CloseRequested by {
            assert(prev[i] == events[i]);
        }
        lemma_close_requests_never_exit(s, prev);
        assert(events.last() == Event::CloseRequested);
    }
}

/// A running process terminates exactly when some event of the sequence is the
/// "quit" command, and it then exits with code 0.
pub proof fn lemma_exit_iff_quit(s: ShellState, events: Seq<Event>)
    requires
        s.is_running(),
    ensures
        !s.run(events).is_running() <==> exists|i: int| 0 <= i < events.len() && is_quit(#[trigger] events[i]),
        !s.run(events).is_running() ==> s.run(events).exit_code == Some(QUIT_EXIT_CODE),
    decreases events.len(),
{
    if events.len() > 0 {
        let prev = events.drop_last();
        let last = events.last();
        lemma_exit_iff_quit(s, prev);
        if exists|i: int| 0 <= i < prev.len() && is_quit(#[trigger] prev[i]) {
            let i = choose|i: int| 0 <= i < prev.len() && is_quit(#[trigger] prev[i]);
            assert(events[i] == prev[i]);
        }
        if is_quit(last) {
            assert(events[events.len() - 1] == last);
        }
        if exists|i: int| 0 <= i < events.len() && is_quit(#[trigger] events[i]) {
            let i = choose|i: int| 0 <= i < events.len() && is_quit(#[trigger] events[i]);
            if i < prev.len() {
                assert(prev[i] == events[i]);
            }
        }
        assert(event_action(last) is Exit <==> is_quit(last));
    }
}

/// Revealing a running shell's window shows and focuses it, and revealing it
/// again changes nothing.
pub proof fn lemma_reveal_idempotent(s: ShellState)
    requires
        s.is_running(),
        s.window.is_some(),
    ensures
        s.after(Action::Reveal).is_running(),
        s.after(Action::Reveal).window matches Some(w) && w.visible && w.focused,
        s.after(Action::Reveal).after(Action::Reveal) == s.after(Action::Reveal),
{
}

/// A menu event whose identifier names no command changes nothing.
pub proof fn lemma_unknown_command_is_ignored(s: ShellState, e: Event)
    requires
        e matches Event::Menu(id) && command_of(id@) is None,
    ensures
        event_action(e) == Action::Ignore,
        s.step(e) == s,
{
}

/// Revealing when the primary window does not exist changes nothing.
pub proof fn lemma_reveal_without_window(s: ShellState)
    requires
        s.window is None,
    ensures
        s.after(Action::Reveal) == s,
{
}

} // verus!
