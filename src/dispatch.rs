use vstd::prelude::*;

use crate::classifier::Signal;

verus! {

/// The usual shortest time between two issued commands, in microseconds.
pub const DEFAULT_MIN_INTERVAL: u64 = 200_000;

/// A focus change that the compositor is asked to perform.
#[derive(Clone, Copy, Debug, PartialEq, Eq, Structural)]
pub enum Command {
    FocusColumnLeft,
    FocusColumnRight,
    FocusWindowOrWorkspaceUp,
    FocusWindowOrWorkspaceDown,
    FocusMonitorLeft,
    FocusMonitorRight,
}

pub open spec fn command_for(s: Signal) -> Option<Command> {
    match s {
        Signal::LeftColumn => Some(Command::FocusColumnLeft),
        Signal::RightColumn => Some(Command::FocusColumnRight),
        Signal::Up => Some(Command::FocusWindowOrWorkspaceUp),
        Signal::Down => Some(Command::FocusWindowOrWorkspaceDown),
        Signal::LeftMonitor => Some(Command::FocusMonitorLeft),
        Signal::RightMonitor => Some(Command::FocusMonitorRight),
        Signal::Nop => None,
    }
}

pub open spec fn command_name(c: Command) -> Seq<char> {
    match c {
        Command::FocusColumnLeft => "focus-column-left"@,
        Command::FocusColumnRight => "focus-column-right"@,
        Command::FocusWindowOrWorkspaceUp => "focus-window-or-workspace-up"@,
        Command::FocusWindowOrWorkspaceDown => "focus-window-or-workspace-down"@,
        Command::FocusMonitorLeft => "focus-monitor-left"@,
        Command::FocusMonitorRight => "focus-monitor-right"@,
    }
}

impl Signal {
    /// The command that carries this signal out; `Nop` has none.
    pub fn command(&self) -> (r: Option<Command>)
        ensures
            r == command_for(*self),
    {
        match self {
            Signal::LeftColumn => Some(Command::FocusColumnLeft),
            Signal::RightColumn => Some(Command::FocusColumnRight),
            Signal::Up => Some(Command::FocusWindowOrWorkspaceUp),
            Signal::Down => Some(Command::FocusWindowOrWorkspaceDown),
            Signal::LeftMonitor => Some(Command::FocusMonitorLeft),
            Signal::RightMonitor => Some(Command::FocusMonitorRight),
            Signal::Nop => None,
        }
    }
}

impl Command {
    /// The compositor's name for this command.
    pub fn name(&self) -> (r: &'static str)
        ensures
            r@ == command_name(*self),
    {
        match self {
            Command::FocusColumnLeft => "focus-column-left",
            Command::FocusColumnRight => "focus-column-right",
            Command::FocusWindowOrWorkspaceUp => "focus-window-or-workspace-up",
            Command::FocusWindowOrWorkspaceDown => "focus-window-or-workspace-down",
            Command::FocusMonitorLeft => "focus-monitor-left",
            Command::FocusMonitorRight => "focus-monitor-right",
        }
    }
}

/// Keeps commands from flooding the compositor: a signal is let through
/// only when at least `min_interval` microseconds have passed since the
/// previous signal, whether that one was let through or not.
#[derive(Clone, Copy, Debug, PartialEq, Eq, Structural)]
pub struct Debouncer {
    pub min_interval: u64,
    /// Instant of the previous signal, or of the start.
    pub last: u64,
}

impl Debouncer {
    pub fn new(min_interval: u64, start: u64) -> (r: Debouncer)
        ensures
            r.min_interval == min_interval,
            r.last == start,
    {
        Debouncer { min_interval, last: start }
    }

    /// Whether a signal arriving at `now` is let through. A signal earlier
    /// than the previous one counts as arriving no time after it.
    pub fn allows(&mut self, now: u64) -> (r: bool)
        ensures
            r == (now >= old(self).last && now - old(self).last >= old(self).min_interval),
            final(self).last == now,
            final(self).min_interval == old(self).min_interval,
    {
        let pass = now >= self.last && now - self.last >= self.min_interval;
        self.last = now;
        pass
    }
}

} // verus!
