//! The order in which the shell brings the process up, and what it attaches
//! to the host.

use vstd::prelude::*;

verus! {

/// A capability that the host receives when it is constructed. Each is an
/// independent plugin, initialised by the host before its loop starts.
#[derive(Clone, Copy, Debug, PartialEq, Eq, Structural)]
pub enum Capability {
    /// Opens external resources with the system's own handlers.
    Opener,
    /// A persistent key-value store.
    Store,
}

/// One step of the startup sequence.
#[derive(Clone, Copy, Debug, PartialEq, Eq, Structural)]
pub enum Step {
    /// Register the process-wide crash handler.
    InstallCrashHandler,
    /// Construct the host, attach its capabilities and block until it
    /// returns.
    RunHost,
}

/// The startup sequence: the crash handler is in place before anything else
/// happens, then the host runs, once.
pub open spec fn startup_order() -> Seq<Step> {
    seq![Step::InstallCrashHandler, Step::RunHost]
}

/// The capabilities of the host, in the order in which they are attached.
pub open spec fn attached_capabilities() -> Seq<Capability> {
    seq![Capability::Opener, Capability::Store]
}

/// The steps of startup, to be carried out in order.
pub fn startup_steps() -> (steps: Vec<Step>)
    ensures
        steps@ == startup_order(),
{
    let mut steps: Vec<Step> = Vec::new();
    steps.push(Step::InstallCrashHandler);
    steps.push(Step::RunHost);
    steps
}

/// The capabilities to attach to the host, in order: exactly two.
pub fn host_capabilities() -> (capabilities: Vec<Capability>)
    ensures
        capabilities@ == attached_capabilities(),
{
    let mut capabilities: Vec<Capability> = Vec::new();
    capabilities.push(Capability::Opener);
    capabilities.push(Capability::Store);
    capabilities
}

/// Whenever the host runs, the crash handler has been installed at an
/// earlier step; and the host runs at one step only.
pub proof fn lemma_crash_handler_precedes_host(at: int)
    requires
        0 <= at < startup_order().len(),
        startup_order()[at] == Step::RunHost,
    ensures
        exists|earlier: int|
            0 <= earlier < at && #[trigger] startup_order()[earlier] == Step::InstallCrashHandler,
        forall|other: int|
            0 <= other < startup_order().len() && #[trigger] startup_order()[other]
                == Step::RunHost ==> other == at,
{
    assert(startup_order()[0] == Step::InstallCrashHandler);
}

} // verus!
