//! The worker-process supervisor's decision logic.
//!
//! In a production build the host spawns the bundled worker executable
//! exactly once, during startup; in a development build it spawns nothing,
//! the worker being started out-of-band.  There is no respawn, health check
//! or shutdown signal: a failed spawn is fatal to startup, and teardown is
//! left to the operating system.  The spawn itself is the binary's work;
//! [`Supervisor::plan_spawn`] is the decision, and the [`Supervisor`] records
//! that at most one spawn ever happens in a run.

use vstd::prelude::*;

verus! {

/// The relative path, under the application's resources, of the bundled
/// worker executable.
pub open spec fn sidecar_program_spec() -> Seq<char> {
    "sidecar/invoices-sidecar"@
}

/// Returns the path of the bundled worker executable.
pub fn sidecar_program() -> (path: &'static str)
    ensures
        path@ == sidecar_program_spec(),
{
    "sidecar/invoices-sidecar"
}

/// Tracks whether the worker process has been spawned in this run.
#[derive(Clone, Copy, Debug, PartialEq, Eq, Structural)]
pub struct Supervisor {
    /// Whether a spawn has already been performed.
    pub spawned: bool,
}

impl Supervisor {
    /// A fresh supervisor: nothing spawned yet.
    pub fn new() -> (s: Supervisor)
        ensures
            !s.spawned,
    {
        Supervisor { spawned: false }
    }

    /// Decides whether to spawn the worker now: only in a production build,
    /// and only if no spawn has happened yet, so a run sees zero or one
    /// spawn, never a respawn.  Returns whether the caller must spawn, and
    /// records the spawn as done when it must.
    pub fn plan_spawn(&mut self, production: bool) -> (do_spawn: bool)
        ensures
            do_spawn == (production && !old(self).spawned),
            final(self).spawned == (old(self).spawned || do_spawn),
    {
        let do_spawn = production && !self.spawned;
        if do_spawn {
            self.spawned = true;
        }
        do_spawn
    }
}

} // verus!
