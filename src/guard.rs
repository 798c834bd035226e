//! The window-close guard: a close request kills the backend's whole process
//! group, then the host exits with success whatever became of the kill.
use vstd::prelude::*;
use vstd::string::StringExecFns;
use crate::decimal::{decimal, decimal_string};
use crate::launch::{strings_view, Platform};

verus! {

/// Where the guard stands.
#[derive(Clone, Copy, PartialEq, Eq, Structural, Debug)]
pub enum GuardPhase {
    /// The backend runs; the window is open.
    Watching,
    /// A close was requested and the backend's group is being killed.
    Closing,
    /// The host has been told to exit.
    Done,
}

/// What the window system or the kill reports to the guard.
#[derive(Clone, Copy, PartialEq, Eq, Structural, Debug)]
pub enum GuardEvent {
    /// The user asked to close the window.
    CloseRequested,
    /// The kill of the backend's group returned; `succeeded` says whether the
    /// signal was delivered.
    KillFinished { succeeded: bool },
}

/// What the host does in answer to an event.
#[derive(Clone, Copy, PartialEq, Eq, Structural, Debug)]
pub enum GuardAction {
    /// Nothing.
    Nothing,
    /// Keep the window from closing.
    PreventClose,
    /// Keep the window from closing and run the guard's kill command.
    PreventCloseAndKill,
    /// Terminate the host process with this exit code.
    ExitHost(i32),
}

/// How the backend's process tree is killed.
pub enum KillCommand {
    /// Send `SIGKILL` to every process in the process group `group`.
    KillGroup { group: i32 },
    /// Run `program` with `args`.
    RunProgram { program: String, args: Vec<String> },
}

/// The guard's answer to `event` in `phase`: its next phase and its action.
pub open spec fn guard_step(phase: GuardPhase, event: GuardEvent) -> (GuardPhase, GuardAction) {
    match (phase, event) {
        (GuardPhase::Watching, GuardEvent::CloseRequested) => (
            GuardPhase::Closing,
            GuardAction::PreventCloseAndKill,
        ),
        (GuardPhase::Closing, GuardEvent::CloseRequested) => (
            GuardPhase::Closing,
            GuardAction::PreventClose,
        ),
        (GuardPhase::Closing, GuardEvent::KillFinished { .. }) => (
            GuardPhase::Done,
            GuardAction::ExitHost(0),
        ),
        _ => (phase, GuardAction::Nothing),
    }
}

/// The command that kills the process tree of the child `pid` on `platform`.
pub open spec fn is_kill_for(k: KillCommand, platform: Platform, pid: u32) -> bool {
    match platform {
        Platform::MacOs => k == KillCommand::KillGroup { group: pid as i32 },
        Platform::Windows => match k {
            KillCommand::RunProgram { program, args } => program@ == "taskkill"@ && strings_view(
                args@,
            ) == seq!["/PID"@, decimal(pid as nat), "/T"@, "/F"@],
            _ => false,
        },
    }
}

/// The pids a platform's process groups can be named by.
pub open spec fn pid_fits(platform: Platform, pid: u32) -> bool {
    platform == Platform::MacOs ==> pid <= i32::MAX
}

/// The guard of one launched backend.
pub struct CloseGuard {
    pub platform: Platform,
    /// The backend's pid, which is also its process group id.
    pub child_pid: u32,
    pub phase: GuardPhase,
}

impl CloseGuard {
    /// A guard for the backend `child_pid`, watching.
    pub fn new(platform: Platform, child_pid: u32) -> (r: CloseGuard)
        requires
            pid_fits(platform, child_pid),
        ensures
            r.platform == platform,
            r.child_pid == child_pid,
            r.phase == GuardPhase::Watching,
    {
        CloseGuard { platform, child_pid, phase: GuardPhase::Watching }
    }

    /// Answers `event`.
    pub fn step(&mut self, event: GuardEvent) -> (r: GuardAction)
        ensures
            final(self).platform == old(self).platform,
            final(self).child_pid == old(self).child_pid,
            (final(self).phase, r) == guard_step(old(self).phase, event),
    {
        match (self.phase, event) {
            (GuardPhase::Watching, GuardEvent::CloseRequested) => {
                self.phase = GuardPhase::Closing;
                GuardAction::PreventCloseAndKill
            },
            (GuardPhase::Closing, GuardEvent::CloseRequested) => GuardAction::PreventClose,
            (GuardPhase::Closing, GuardEvent::KillFinished { .. }) => {
                self.phase = GuardPhase::Done;
                GuardAction::ExitHost(0)
            },
            _ => GuardAction::Nothing,
        }
    }

    /// The command that kills the backend's process tree.
    pub fn kill_command(&self) -> (r: KillCommand)
        requires
            pid_fits(self.platform, self.child_pid),
        ensures
            is_kill_for(r, self.platform, self.child_pid),
    {
        match self.platform {
            Platform::MacOs => KillCommand::KillGroup { group: self.child_pid as i32 },
            Platform::Windows => {
                let mut args: Vec<String> = Vec::new();
                args.push(String::from_str("/PID"));
                args.push(decimal_string(self.child_pid));
                args.push(String::from_str("/T"));
                args.push(String::from_str("/F"));
                let r = KillCommand::RunProgram { program: String::from_str("taskkill"), args };
                proof {
                    assert(strings_view(args@) =~= seq![
                        "/PID"@,
                        decimal(self.child_pid as nat),
                        "/T"@,
                        "/F"@,
                    ]);
                }
                r
            },
        }
    }
}

/// The law of the close guard: a close request on a watching guard keeps the
/// window open and kills the backend's group, and the end of that kill, failed
/// or not, always ends the host with exit code `0`.
pub proof fn close_always_exits_with_success(succeeded: bool)
    ensures
        guard_step(GuardPhase::Watching, GuardEvent::CloseRequested) == (
            GuardPhase::Closing,
            GuardAction::PreventCloseAndKill,
        ),
        guard_step(GuardPhase::Closing, GuardEvent::KillFinished { succeeded }) == (
            GuardPhase::Done,
            GuardAction::ExitHost(0),
        ),
{
}

} // verus!
