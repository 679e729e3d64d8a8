//! Bootstrap orchestration: a linear state machine from phase and event to
//! the next phase. The caller performs each phase's outside action (changing
//! directory, acquiring resources, loading the module, the foreign call,
//! teardown) and feeds back the outcome as an event; every decision — which
//! phase follows, and which typed error a failure surfaces — is taken here.
//! A failure aborts the run at the point it happened: no earlier resource is
//! revisited, and the shared block is released only after the foreign call
//! has returned.

use vstd::prelude::*;
use crate::config::BootError;

verus! {

/// The phases of one bootstrap run, in order. The foreign-invocation phase
/// spans loading the module, resolving its entry point, the blocking call
/// and unloading; the result of the call rides along to the end.
#[derive(Clone, Copy, Debug, PartialEq, Eq, Structural)]
pub enum Phase {
    /// Nothing has happened yet.
    Start,
    /// Entering the configured working folder.
    ResolvePath,
    /// Acquiring the named mutexes and the shared memory block.
    AcquireResources,
    /// Building and populating the image and the shared block.
    BuildImage,
    /// Loading the foreign module by its selected filename.
    LoadModule,
    /// Resolving the module's single exported entry symbol.
    ResolveEntry,
    /// The blocking call into the foreign module, image pointer in hand.
    CallEntry,
    /// Unloading the module; carries the foreign call's result.
    UnloadModule(isize),
    /// Releasing the shared memory block; carries the result.
    ReleaseResources(isize),
    /// The run is over; carries the foreign call's result.
    Done(isize),
    /// The run was aborted by the recorded error.
    Failed(BootError),
}

/// The outcome of a phase's outside action.
#[derive(Clone, Copy, Debug, PartialEq, Eq, Structural)]
pub enum BootEvent {
    /// Begin the run.
    Begin,
    PathResolved,
    PathFailed,
    ResourcesAcquired,
    ResourceFailed,
    ImageBuilt,
    ModuleLoaded,
    ModuleLoadFailed,
    EntryResolved,
    EntryMissing,
    /// The foreign call returned this value.
    Returned(isize),
    ModuleUnloaded,
    UnloadFailed,
    BlockReleased,
    ReleaseFailed,
}

/// Whether `event` is an outcome that `phase`'s action can report.
pub open spec fn phase_expects(phase: Phase, event: BootEvent) -> bool {
    match phase {
        Phase::Start => event == BootEvent::Begin,
        Phase::ResolvePath => event == BootEvent::PathResolved || event == BootEvent::PathFailed,
        Phase::AcquireResources => event == BootEvent::ResourcesAcquired || event
            == BootEvent::ResourceFailed,
        Phase::BuildImage => event == BootEvent::ImageBuilt,
        Phase::LoadModule => event == BootEvent::ModuleLoaded || event
            == BootEvent::ModuleLoadFailed,
        Phase::ResolveEntry => event == BootEvent::EntryResolved || event
            == BootEvent::EntryMissing,
        Phase::CallEntry => event is Returned,
        Phase::UnloadModule(_) => event == BootEvent::ModuleUnloaded || event
            == BootEvent::UnloadFailed,
        Phase::ReleaseResources(_) => event == BootEvent::BlockReleased || event
            == BootEvent::ReleaseFailed,
        Phase::Done(_) => false,
        Phase::Failed(_) => false,
    }
}

/// The phase that follows `phase` on `event`: the next phase in line on
/// success, or the terminal failure with the stage's typed error.
pub open spec fn spec_step(phase: Phase, event: BootEvent) -> Phase {
    match (phase, event) {
        (Phase::Start, BootEvent::Begin) => Phase::ResolvePath,
        (Phase::ResolvePath, BootEvent::PathResolved) => Phase::AcquireResources,
        (Phase::ResolvePath, BootEvent::PathFailed) => Phase::Failed(BootError::Path),
        (Phase::AcquireResources, BootEvent::ResourcesAcquired) => Phase::BuildImage,
        (Phase::AcquireResources, BootEvent::ResourceFailed) => Phase::Failed(
            BootError::Resource,
        ),
        (Phase::BuildImage, BootEvent::ImageBuilt) => Phase::LoadModule,
        (Phase::LoadModule, BootEvent::ModuleLoaded) => Phase::ResolveEntry,
        (Phase::LoadModule, BootEvent::ModuleLoadFailed) => Phase::Failed(BootError::ModuleLoad),
        (Phase::ResolveEntry, BootEvent::EntryResolved) => Phase::CallEntry,
        (Phase::ResolveEntry, BootEvent::EntryMissing) => Phase::Failed(
            BootError::SymbolNotFound,
        ),
        (Phase::CallEntry, BootEvent::Returned(r)) => Phase::UnloadModule(r),
        (Phase::UnloadModule(r), BootEvent::ModuleUnloaded) => Phase::ReleaseResources(r),
        (Phase::UnloadModule(_), BootEvent::UnloadFailed) => Phase::Failed(BootError::ModuleLoad),
        (Phase::ReleaseResources(r), BootEvent::BlockReleased) => Phase::Done(r),
        (Phase::ReleaseResources(_), BootEvent::ReleaseFailed) => Phase::Failed(
            BootError::Resource,
        ),
        (p, _) => p,
    }
}

/// Advances the run by one phase.
pub fn step(phase: Phase, event: BootEvent) -> (next: Phase)
    requires
        phase_expects(phase, event),
    ensures
        next == spec_step(phase, event),
{
    match (phase, event) {
        (Phase::Start, BootEvent::Begin) => Phase::ResolvePath,
        (Phase::ResolvePath, BootEvent::PathResolved) => Phase::AcquireResources,
        (Phase::ResolvePath, BootEvent::PathFailed) => Phase::Failed(BootError::Path),
        (Phase::AcquireResources, BootEvent::ResourcesAcquired) => Phase::BuildImage,
        (Phase::AcquireResources, BootEvent::ResourceFailed) => Phase::Failed(
            BootError::Resource,
        ),
        (Phase::BuildImage, BootEvent::ImageBuilt) => Phase::LoadModule,
        (Phase::LoadModule, BootEvent::ModuleLoaded) => Phase::ResolveEntry,
        (Phase::LoadModule, BootEvent::ModuleLoadFailed) => Phase::Failed(BootError::ModuleLoad),
        (Phase::ResolveEntry, BootEvent::EntryResolved) => Phase::CallEntry,
        (Phase::ResolveEntry, BootEvent::EntryMissing) => Phase::Failed(
            BootError::SymbolNotFound,
        ),
        (Phase::CallEntry, BootEvent::Returned(r)) => Phase::UnloadModule(r),
        (Phase::UnloadModule(r), BootEvent::ModuleUnloaded) => Phase::ReleaseResources(r),
        (Phase::UnloadModule(_), BootEvent::UnloadFailed) => Phase::Failed(BootError::ModuleLoad),
        (Phase::ReleaseResources(r), BootEvent::BlockReleased) => Phase::Done(r),
        (Phase::ReleaseResources(_), BootEvent::ReleaseFailed) => Phase::Failed(
            BootError::Resource,
        ),
        (p, _) => p,
    }
}

/// The run after feeding `events` in order from `phase`.
pub open spec fn run_from(phase: Phase, events: Seq<BootEvent>) -> Phase
    decreases events.len(),
{
    if events.len() == 0 {
        phase
    } else {
        run_from(spec_step(phase, events[0]), events.drop_first())
    }
}

/// A terminal phase stays where it is: no event moves a finished or failed
/// run.
pub proof fn lemma_terminal_stays(phase: Phase, events: Seq<BootEvent>)
    requires
        phase is Done || phase is Failed,
    ensures
        run_from(phase, events) == phase,
    decreases events.len(),
{
    if events.len() > 0 {
        lemma_terminal_stays(phase, events.drop_first());
    }
}

/// A failed working-folder resolution aborts the whole run with the path
/// error, whatever happens afterwards: no later phase — resource
/// acquisition included — is ever entered.
pub proof fn lemma_path_failure_aborts(events: Seq<BootEvent>)
    ensures
        run_from(spec_step(Phase::ResolvePath, BootEvent::PathFailed), events) == Phase::Failed(
            BootError::Path,
        ),
{
    lemma_terminal_stays(Phase::Failed(BootError::Path), events);
}

} // verus!
