use mhf::boot::{step, BootEvent, Phase};
use mhf::config::BootError;

#[test]
fn happy_path_runs_to_done_with_the_foreign_result() {
    let mut p = step(Phase::Start, BootEvent::Begin);
    assert_eq!(p, Phase::ResolvePath);
    p = step(p, BootEvent::PathResolved);
    assert_eq!(p, Phase::AcquireResources);
    p = step(p, BootEvent::ResourcesAcquired);
    assert_eq!(p, Phase::BuildImage);
    p = step(p, BootEvent::ImageBuilt);
    assert_eq!(p, Phase::LoadModule);
    p = step(p, BootEvent::ModuleLoaded);
    assert_eq!(p, Phase::ResolveEntry);
    p = step(p, BootEvent::EntryResolved);
    assert_eq!(p, Phase::CallEntry);
    p = step(p, BootEvent::Returned(42));
    assert_eq!(p, Phase::UnloadModule(42));
    p = step(p, BootEvent::ModuleUnloaded);
    assert_eq!(p, Phase::ReleaseResources(42));
    p = step(p, BootEvent::BlockReleased);
    assert_eq!(p, Phase::Done(42));
}

#[test]
fn bad_working_folder_fails_before_any_resource_is_acquired() {
    // a configuration pointing at a folder that cannot be entered
    let p = step(Phase::Start, BootEvent::Begin);
    let p = step(p, BootEvent::PathFailed);
    assert_eq!(p, Phase::Failed(BootError::Path));
}

#[test]
fn module_load_failure_after_the_image_was_built() {
    // the run reaches module loading (the image is already built) and the
    // filename does not resolve
    let mut p = step(Phase::Start, BootEvent::Begin);
    p = step(p, BootEvent::PathResolved);
    p = step(p, BootEvent::ResourcesAcquired);
    p = step(p, BootEvent::ImageBuilt);
    assert_eq!(p, Phase::LoadModule);
    p = step(p, BootEvent::ModuleLoadFailed);
    assert_eq!(p, Phase::Failed(BootError::ModuleLoad));
}

#[test]
fn other_failures_carry_their_stage_error() {
    assert_eq!(
        step(Phase::AcquireResources, BootEvent::ResourceFailed),
        Phase::Failed(BootError::Resource)
    );
    assert_eq!(
        step(Phase::ResolveEntry, BootEvent::EntryMissing),
        Phase::Failed(BootError::SymbolNotFound)
    );
    assert_eq!(
        step(Phase::UnloadModule(7), BootEvent::UnloadFailed),
        Phase::Failed(BootError::ModuleLoad)
    );
    assert_eq!(
        step(Phase::ReleaseResources(7), BootEvent::ReleaseFailed),
        Phase::Failed(BootError::Resource)
    );
}
