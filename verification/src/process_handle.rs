//! Lifecycle state machine of one supervised child process.

use vstd::prelude::*;

verus! {

/// Observable state of one supervised child process.
#[derive(Debug, PartialEq, Eq)]
pub enum ProcessStatus {
    Stopped,
    Starting,
    Running,
    Failed { error: String },
}

impl Clone for ProcessStatus {
    fn clone(&self) -> (r: Self)
        ensures
            r == *self,
    {
        match self {
            ProcessStatus::Stopped => ProcessStatus::Stopped,
            ProcessStatus::Starting => ProcessStatus::Starting,
            ProcessStatus::Running => ProcessStatus::Running,
            ProcessStatus::Failed { error } => (ProcessStatus::Failed { error: error.clone() }),
        }
    }
}

/// Owns the lifecycle of exactly one child process.  The launch attempt
/// itself (locating the binary, starting it, waiting for readiness) is a
/// collaborator concern; its outcome is handed in as a plain value and the
/// handle keeps the resulting state.
#[derive(Debug, PartialEq, Eq)]
pub struct ProcessHandle {
    pub status: ProcessStatus,
}

impl ProcessHandle {
    /// A fresh handle: never started, reports not running.
    pub fn new() -> (r: Self)
        ensures
            r.status is Stopped,
    {
        ProcessHandle { status: ProcessStatus::Stopped }
    }

    /// Records that a launch attempt is under way.
    pub fn begin_spawn(&mut self)
        ensures
            final(self).status is Starting,
    {
        self.status = ProcessStatus::Starting;
    }

    /// Records the outcome of the launch attempt and readiness wait and
    /// echoes it: `Ok` leaves the handle running, `Err` leaves it failed
    /// with the same message.
    pub fn complete_spawn(&mut self, outcome: &Result<(), String>) -> (r: Result<(), String>)
        ensures
            r is Ok <==> outcome is Ok,
            outcome is Ok ==> final(self).status is Running,
            outcome is Err ==> final(self).status == (ProcessStatus::Failed { error: outcome->Err_0 })
                && r == Err::<(), String>(outcome->Err_0),
    {
        match outcome {
            Ok(_) => {
                self.status = ProcessStatus::Running;
                Ok(())
            },
            Err(e) => {
                self.status = ProcessStatus::Failed { error: e.clone() };
                Err(e.clone())
            },
        }
    }

    /// Cheap liveness report; false on a never-started handle.
    pub fn is_running(&self) -> (r: bool)
        ensures
            r == (self.status is Running),
    {
        match &self.status {
            ProcessStatus::Running => true,
            _ => false,
        }
    }

    /// Stops the process; safe on an already-stopped handle.
    pub fn kill(&mut self)
        ensures
            final(self).status is Stopped,
    {
        self.status = ProcessStatus::Stopped;
    }
}

} // verus!
