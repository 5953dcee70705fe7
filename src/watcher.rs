use vstd::prelude::*;
use crate::dispatcher::{action_for, cell_after};
use crate::tray::TrayMessage;

verus! {

/// The interval, in milliseconds, at which the UI thread polls the shared
/// visibility flag.
pub const POLL_INTERVAL_MS: u64 = 100;

/// A command for the main window's control handle.
#[derive(Clone, Copy, Debug, PartialEq, Eq, Structural)]
pub enum WindowCommand {
    SetVisible(bool),
    SetFocus,
}

/// The watcher's state as the contracts see it.
pub struct WatcherState {
    /// Whether the window has already been made visible by this watcher.
    pub last_applied: bool,
    /// Whether a show is preceded by a hide, to make window managers that
    /// ignore a repeated show raise the window again.
    pub force_reraise: bool,
}

/// The cooperative task on the UI thread that turns the shared visibility flag
/// into window commands.
pub struct Watcher {
    last_applied: bool,
    force_reraise: bool,
}

/// A tick must show the window: the flag asks for it and it has not been done.
pub open spec fn show_due(last_applied: bool, cell: bool) -> bool {
    cell && !last_applied
}

/// The commands that show and focus the window.
pub open spec fn show_commands(force_reraise: bool) -> Seq<WindowCommand> {
    if force_reraise {
        seq![WindowCommand::SetVisible(false), WindowCommand::SetVisible(true), WindowCommand::SetFocus]
    } else {
        seq![WindowCommand::SetVisible(true), WindowCommand::SetFocus]
    }
}

impl View for Watcher {
    type V = WatcherState;

    closed spec fn view(&self) -> WatcherState {
        WatcherState { last_applied: self.last_applied, force_reraise: self.force_reraise }
    }
}

impl Watcher {
    /// A watcher for a window that starts hidden.
    pub fn new(force_reraise: bool) -> (r: Watcher)
        ensures
            r@ == (WatcherState { last_applied: false, force_reraise }),
    {
        Watcher { last_applied: false, force_reraise }
    }

    pub fn last_applied(&self) -> (r: bool)
        ensures
            r == self@.last_applied,
    {
        self.last_applied
    }

    pub fn force_reraise(&self) -> (r: bool)
        ensures
            r == self@.force_reraise,
    {
        self.force_reraise
    }

    /// One poll: `cell` is the flag as read under its lock. Returns the
    /// commands to issue, in order; the window is never hidden on the
    /// watcher's own account.
    pub fn tick(&mut self, cell: bool) -> (r: Vec<WindowCommand>)
        ensures
            r@ == (if show_due(old(self)@.last_applied, cell) {
                show_commands(old(self)@.force_reraise)
            } else {
                Seq::empty()
            }),
            final(self)@ == (WatcherState {
                last_applied: old(self)@.last_applied || cell,
                force_reraise: old(self)@.force_reraise,
            }),
    {
        let mut commands: Vec<WindowCommand> = Vec::new();
        if cell && !self.last_applied {
            if self.force_reraise {
                commands.push(WindowCommand::SetVisible(false));
            }
            commands.push(WindowCommand::SetVisible(true));
            commands.push(WindowCommand::SetFocus);
            self.last_applied = true;
        }
        proof {
            if show_due(old(self)@.last_applied, cell) {
                assert(commands@ =~= show_commands(self.force_reraise));
            } else {
                assert(commands@ =~= Seq::<WindowCommand>::empty());
            }
        }
        commands
    }
}

/// One event of the running system: the dispatcher handles a message, or the
/// watcher's poll interval elapses.
pub enum SystemEvent {
    Deliver(TrayMessage),
    PollTick,
}

/// How many times the window is shown over a run of events, from the given
/// flag and watcher state, until an `Exit` ends the process.
pub open spec fn shows_in_run(cell: bool, last_applied: bool, events: Seq<SystemEvent>) -> nat
    decreases events.len(),
{
    if events.len() == 0 {
        0
    } else {
        match events[0] {
            SystemEvent::Deliver(msg) => {
                if action_for(msg) is Terminate {
                    0
                } else {
                    shows_in_run(cell_after(cell, msg), last_applied, events.drop_first())
                }
            },
            SystemEvent::PollTick => {
                let shown: nat = if show_due(last_applied, cell) { 1 } else { 0 };
                shown + shows_in_run(cell, last_applied || cell, events.drop_first())
            },
        }
    }
}

/// However many `ShowWindow` messages arrive, and however they interleave with
/// the watcher's polls, the window is shown at most once per passage from
/// hidden to visible: at most once from a hidden start, never once shown.
pub proof fn lemma_single_show_per_transition(
    cell: bool,
    last_applied: bool,
    events: Seq<SystemEvent>,
)
    ensures
        shows_in_run(cell, last_applied, events) <= 1,
        last_applied ==> shows_in_run(cell, last_applied, events) == 0,
    decreases events.len(),
{
    if events.len() > 0 {
        let rest = events.drop_first();
        match events[0] {
            SystemEvent::Deliver(msg) => {
                lemma_single_show_per_transition(cell_after(cell, msg), last_applied, rest);
            },
            SystemEvent::PollTick => {
                lemma_single_show_per_transition(cell, last_applied || cell, rest);
            },
        }
    }
}

} // verus!
