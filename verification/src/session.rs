//! The debugging session: the inferior's run state, the breakpoint table,
//! and the dispatcher that turns parsed command lines into state changes
//! and requests to the embedding program.
//!
//! The session never touches the operating system itself. Every tracing
//! operation is requested through an [`Effect`]; the embedding program
//! performs it and hands observed events back (the word read at an
//! address, the kind of stop the wait reported).

use vstd::prelude::*;
use crate::command::Command;
use crate::command::Diagnostic;
use crate::command::parse_command;
use crate::command::spec_parse_command;
use crate::table::BreakpointTable;
use crate::table::ToggleOutcome;
use crate::table::spec_toggle_or_create;
use crate::breakpoint::Breakpoint;

verus! {

/// The inferior's run state as the tracer sees it: stopped (initial, and
/// after any trap or signal delivery), running (between a resume and the
/// next observed stop), or terminated (exit observed, or interrupted at
/// quit).
#[derive(Clone, Copy, PartialEq, Eq, Structural, Debug)]
pub enum RunState {
    Stopped,
    Running,
    Terminated,
}

/// What a wait on the running inferior reported.
#[derive(Clone, Copy, PartialEq, Eq, Structural, Debug)]
pub enum StopEvent {
    /// The inferior hit a trap instruction.
    Trapped,
    /// Some other signal was delivered and stopped the inferior.
    SignalDelivery,
    /// The inferior exited.
    Exited,
}

/// The run state after a stop is observed: an exit terminates the
/// inferior, any trap or signal delivery leaves it stopped again.
pub open spec fn spec_state_after(ev: StopEvent) -> RunState {
    match ev {
        StopEvent::Exited => RunState::Terminated,
        _ => RunState::Stopped,
    }
}

/// What the embedding program must do after a command line is handled.
#[derive(Clone, Copy, PartialEq, Eq, Structural, Debug)]
pub enum Effect {
    /// Read the word at `addr` from the inferior, pass it to
    /// [`Session::toggle_breakpoint`], and write the returned word back.
    /// `existed` reports whether the address already had an entry, purely
    /// informationally.
    Toggle { addr: u64, existed: bool },
    /// Resume the inferior, wait for its next stop, and report it through
    /// [`Session::observe_stop`]. Breakpoints are set-and-forget,
    /// single-shot traps: resuming from a breakpoint stop does not
    /// restore the original byte, step past it, and reinstall the trap —
    /// the trap stays resident until explicitly toggled off.
    Resume,
    /// Signal the inferior (best effort) and exit the tool with status 0.
    Terminate,
    /// Print the diagnostic on the error stream; nothing changed.
    Report { diag: Diagnostic },
}

/// One debugging session: the traced program's name, the inferior's run
/// state, and the breakpoint table the session exclusively owns.
pub struct Session {
    pub prog_name: String,
    pub state: RunState,
    pub table: BreakpointTable,
}

impl Session {
    /// A fresh session over a just-launched inferior. The launcher waits
    /// for the child's initial trace-stop before handing over, so the
    /// session starts with the inferior stopped and no breakpoints.
    pub fn new(prog_name: String) -> (s: Session)
        ensures
            s.prog_name == prog_name,
            s.state == RunState::Stopped,
            s.table@ == Map::<u64, Breakpoint>::empty(),
    {
        Session { prog_name, state: RunState::Stopped, table: BreakpointTable::new() }
    }

    /// If `addr` already has an entry, toggle it, else create a new,
    /// immediately enabled breakpoint there. `word` is the word the
    /// caller read at `addr`; the caller must write `write_word` of the
    /// outcome back at `addr`. The run state is untouched.
    pub fn toggle_breakpoint(&mut self, addr: u64, word: u64) -> (r: ToggleOutcome)
        ensures
            final(self).prog_name == old(self).prog_name,
            final(self).state == old(self).state,
            r.existed == old(self).table@.contains_key(addr),
            (final(self).table@, r) == spec_toggle_or_create(old(self).table@, addr, word),
    {
        self.table.toggle_or_create(addr, word)
    }

    /// Resume the stopped inferior. Valid only from `Stopped`: resuming a
    /// terminated inferior is outside this design. The caller performs
    /// the actual resume and wait, then reports through `observe_stop`.
    /// Deliberately, no breakpoint is lifted first: a stop at an enabled
    /// breakpoint resumes with the trap still resident (see
    /// [`Effect::Resume`]).
    pub fn continue_execution(&mut self)
        requires
            old(self).state == RunState::Stopped,
        ensures
            final(self).prog_name == old(self).prog_name,
            final(self).state == RunState::Running,
            final(self).table@ == old(self).table@,
    {
        self.state = RunState::Running;
    }

    /// Record what the wait on the running inferior reported.
    pub fn observe_stop(&mut self, ev: StopEvent)
        requires
            old(self).state == RunState::Running,
        ensures
            final(self).prog_name == old(self).prog_name,
            final(self).state == spec_state_after(ev),
            final(self).table@ == old(self).table@,
    {
        match ev {
            StopEvent::Exited => {
                self.state = RunState::Terminated;
            },
            _ => {
                self.state = RunState::Stopped;
            },
        }
    }

    /// End the session: the inferior is to be interrupted (best effort)
    /// and the tool exits. The session records it as terminated.
    pub fn quit(&mut self)
        ensures
            final(self).prog_name == old(self).prog_name,
            final(self).state == RunState::Terminated,
            final(self).table@ == old(self).table@,
    {
        self.state = RunState::Terminated;
    }

    /// Dispatch one command line. A well-formed `break` reports the
    /// address and whether it already had an entry, changing nothing yet;
    /// `continue` moves the inferior to running; `exit`/`quit` ends the
    /// session; every malformed line leaves the session exactly as it
    /// was and only asks for its diagnostic to be printed.
    pub fn handle_command(&mut self, line: &[u8]) -> (e: Effect)
        requires
            old(self).state == RunState::Stopped,
        ensures
            final(self).table@ == old(self).table@,
            final(self).prog_name == old(self).prog_name,
            match spec_parse_command(line@) {
                Command::Break { addr } => {
                    &&& e == (Effect::Toggle {
                        addr,
                        existed: old(self).table@.contains_key(addr),
                    })
                    &&& final(self).state == old(self).state
                },
                Command::Continue => {
                    &&& e == Effect::Resume
                    &&& final(self).state == RunState::Running
                },
                Command::Quit => {
                    &&& e == Effect::Terminate
                    &&& final(self).state == RunState::Terminated
                },
                Command::Invalid { diag } => {
                    &&& e == (Effect::Report { diag })
                    &&& final(self).state == old(self).state
                },
            },
    {
        match parse_command(line) {
            Command::Break { addr } => {
                let existed = self.table.lookup(addr);
                Effect::Toggle { addr, existed }
            },
            Command::Continue => {
                self.continue_execution();
                Effect::Resume
            },
            Command::Quit => {
                self.quit();
                Effect::Terminate
            },
            Command::Invalid { diag } => Effect::Report { diag },
        }
    }
}

} // verus!
