//! The one-shot lifecycle of the embedded runtime: started once, torn down
//! once, and nothing touched after that.

use vstd::prelude::*;

verus! {

/// Where the process stands with the embedded runtime.
#[derive(Clone, Copy, PartialEq, Eq, Structural, Debug)]
pub enum LifecycleState {
    Uninitialized,
    Running,
    Stopped,
}

/// The process-wide lifecycle record.
pub struct Lifecycle {
    state: LifecycleState,
}

/// Why starting the runtime failed; none of these can be recovered from.
#[derive(Clone, Copy, PartialEq, Eq, Structural, Debug)]
pub enum InitFault {
    /// The runtime's setup step reported a non-zero status.
    SetupFailed,
    /// The startup program did not compile to something executable.
    NotExecutable,
    /// Running the startup program reported a non-zero status.
    ExecFailed,
}

/// The first failing step of startup, given each step's reported status.
pub open spec fn init_outcome_spec(setup: i32, executable: i32, exec: i32) -> Result<(), InitFault> {
    if setup != 0 {
        Err(InitFault::SetupFailed)
    } else if executable == 0 {
        Err(InitFault::NotExecutable)
    } else if exec != 0 {
        Err(InitFault::ExecFailed)
    } else {
        Ok(())
    }
}

/// The token of a started runtime; handing it back tears the runtime down.
pub struct Cleanup {}

impl Lifecycle {
    /// The current state.
    pub closed spec fn state_spec(self) -> LifecycleState {
        self.state
    }

    /// A process that has not started the runtime.
    pub fn new() -> (r: Lifecycle)
        ensures
            r.state_spec() == LifecycleState::Uninitialized,
    {
        Lifecycle { state: LifecycleState::Uninitialized }
    }

    /// The current state.
    pub fn state(&self) -> (r: LifecycleState)
        ensures
            r == self.state_spec(),
    {
        self.state
    }

    /// Marks the runtime started and hands out the teardown token. Starting
    /// twice is a programming error, so the runtime must not have been
    /// started before.
    pub fn init(&mut self) -> (r: Cleanup)
        requires
            old(self).state_spec() == LifecycleState::Uninitialized,
        ensures
            final(self).state_spec() == LifecycleState::Running,
    {
        self.state = LifecycleState::Running;
        Cleanup {}
    }
}

impl Cleanup {
    /// Tears the runtime down: the last interaction of the process.
    pub fn finish(self, lifecycle: &mut Lifecycle)
        requires
            old(lifecycle).state_spec() == LifecycleState::Running,
        ensures
            final(lifecycle).state_spec() == LifecycleState::Stopped,
    {
        lifecycle.state = LifecycleState::Stopped;
    }
}

/// The program arguments that startup hands to the runtime: its name and an
/// empty program to run.
pub fn init_args() -> (r: Vec<&'static str>)
    ensures
        r@.len() == 3,
        r@[0]@ == "ruby"@,
        r@[1]@ == "-e"@,
        r@[2]@ == ""@,
{
    proof {
        reveal_strlit("ruby");
        reveal_strlit("-e");
        reveal_strlit("");
    }
    vec!["ruby", "-e", ""]
}

/// Reads the statuses of the three startup steps: runtime setup (zero on
/// success), the executable check of the startup program (non-zero when
/// executable), and running it (zero on success).
pub fn init_outcome(setup: i32, executable: i32, exec: i32) -> (r: Result<(), InitFault>)
    ensures
        r == init_outcome_spec(setup, executable, exec),
{
    if setup != 0 {
        Err(InitFault::SetupFailed)
    } else if executable == 0 {
        Err(InitFault::NotExecutable)
    } else if exec != 0 {
        Err(InitFault::ExecFailed)
    } else {
        Ok(())
    }
}

} // verus!
