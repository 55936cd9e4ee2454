use vstd::prelude::*;

verus! {

/// The start/stop switch that the shell flips. Stopping only lowers the
/// flag: a bridge task already started keeps running.
pub struct Lifecycle {
    pub running: bool,
}

impl Lifecycle {
    pub fn new() -> (r: Lifecycle)
        ensures
            !r.running,
    {
        Lifecycle { running: false }
    }

    /// Raises the flag; the result says whether a bridge task must be
    /// spawned, which is when none was running.
    pub fn start(&mut self) -> (spawn: bool)
        ensures
            spawn == !old(self).running,
            final(self).running,
    {
        let spawn = !self.running;
        self.running = true;
        spawn
    }

    /// Lowers the flag.
    pub fn stop(&mut self)
        ensures
            !final(self).running,
    {
        self.running = false;
    }

    /// `stop` then `start`: a new bridge task is always spawned.
    pub fn restart(&mut self) -> (spawn: bool)
        ensures
            spawn,
            final(self).running,
    {
        self.stop();
        self.start()
    }
}

} // verus!
