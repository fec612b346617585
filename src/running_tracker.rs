//! Whether the process should keep running, and the code it should exit with.
use vstd::prelude::*;

verus! {

/// The running flag and exit code of a process. A process-wide instance is
/// shared behind a lock by the embedding program.
pub struct RunningTracker {
    running: bool,
    exit_code: i32,
}

impl RunningTracker {
    /// Whether the tracker still says to keep running.
    pub closed spec fn keeps_running(&self) -> bool {
        self.running
    }

    /// The exit code recorded so far.
    pub closed spec fn code(&self) -> i32 {
        self.exit_code
    }

    /// Running, with exit code 0.
    pub fn new() -> (r: Self)
        ensures
            r.keeps_running(),
            r.code() == 0,
    {
        Self { running: true, exit_code: 0 }
    }

    /// Stops running and keeps the exit code; `reason` is for the caller's log.
    pub fn quit(&mut self, reason: &str)
        ensures
            !final(self).keeps_running(),
            final(self).code() == old(self).code(),
    {
        self.running = false;
    }

    /// Records `code` as the exit code and stops running; `reason` is for the
    /// caller's log.
    pub fn quit_with_code(&mut self, code: i32, reason: &str)
        ensures
            !final(self).keeps_running(),
            final(self).code() == code,
    {
        self.exit_code = code;
        self.running = false;
    }

    pub fn is_running(&self) -> (r: bool)
        ensures
            r == self.keeps_running(),
    {
        self.running
    }

    pub fn exit_code(&self) -> (r: i32)
        ensures
            r == self.code(),
    {
        self.exit_code
    }
}

} // verus!
