use vstd::prelude::*;

verus! {

/// What the run loop does next, decided once between cycles.
#[derive(Clone, Copy, Debug, PartialEq, Eq, Structural)]
pub enum Step {
    /// Run one more cycle over every module.
    Tick,
    /// Leave the loop.
    Stop,
}

/// The running flag of a registry: set when the run loop starts, cleared by
/// `exit`, and read only between cycles.
#[derive(Debug)]
pub struct RunState {
    running: bool,
}

impl RunState {
    /// Whether the loop is to go on.
    pub closed spec fn running(&self) -> bool {
        self.running
    }

    /// A registry that has not started running.
    pub fn new() -> (r: Self)
        ensures
            !r.running(),
    {
        RunState { running: false }
    }

    /// Marks the loop as running; the run loop does this once as it starts.
    pub fn start(&mut self)
        ensures
            final(self).running(),
    {
        self.running = true;
    }

    /// Asks the loop to stop once the cycle in progress has completed.
    pub fn exit(&mut self)
        ensures
            !final(self).running(),
    {
        self.running = false;
    }

    /// Whether the loop is to go on.
    pub fn is_running(&self) -> (r: bool)
        ensures
            r == self.running(),
    {
        self.running
    }

    /// What the loop does next when it reads this flag between cycles.
    pub open spec fn step(&self) -> Step {
        if self.running() {
            Step::Tick
        } else {
            Step::Stop
        }
    }

    /// What the loop does after the cycle that has just completed.
    pub fn next_step(&self) -> (r: Step)
        ensures
            r == self.step(),
    {
        if self.running {
            Step::Tick
        } else {
            Step::Stop
        }
    }
}

/// A cycle in which a module calls `exit` is the last one. The states are the flag
/// as each `exit` call of the cycle leaves it, in order; modules can only call
/// `exit`, never `start`. Whatever their number and order, the step read after the
/// cycle is `Stop`. The cycle itself is not cut short, since the flag is read only
/// between cycles.
pub proof fn lemma_exit_ends_run(after_calls: Seq<RunState>)
    requires
        after_calls.len() >= 1,
        forall|k: int| 0 <= k < after_calls.len() ==> !(#[trigger] after_calls[k]).running(),
    ensures
        after_calls.last().step() == Step::Stop,
{
}

} // verus!
