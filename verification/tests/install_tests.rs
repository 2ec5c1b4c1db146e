use singularity_llm::install::DiskImageInstall;
use singularity_llm::install::InstallPhase;
use singularity_llm::install::InstallStep;
use singularity_llm::install::bundle_destination;
use singularity_llm::install::bundle_source;
use singularity_llm::install::mounted_volume;
use singularity_llm::install::version_flag;

fn install() -> DiskImageInstall {
    DiskImageInstall::new(String::from("/cache/ollama.dmg"))
}

#[test]
fn successful_install_walks_mount_copy_detach() {
    let mut t = install();
    assert!(matches!(t.phase, InstallPhase::Mounting));
    t.on_mount_result(true, String::new());
    assert!(matches!(t.phase, InstallPhase::Copying));
    t.on_copy_result(true, String::new());
    assert!(matches!(t.phase, InstallPhase::Detaching));
    t.on_detach_result(true);
    assert!(matches!(t.phase, InstallPhase::Done { detach_failed: false }));
}

#[test]
fn mount_failure_is_fatal_and_labelled() {
    let mut t = install();
    t.on_mount_result(false, String::from("no such device"));
    assert!(matches!(t.phase, InstallPhase::Failed { step: InstallStep::Mount, .. }));
    let e = t.failure_error();
    assert_eq!(e.location, "/cache/ollama.dmg");
    assert_eq!(e.context, "mount ollama disk image for installation");
    assert_eq!(e.error, "no such device");
}

#[test]
fn copy_failure_is_fatal_and_labelled() {
    let mut t = install();
    t.on_mount_result(true, String::new());
    t.on_copy_result(false, String::from("read-only filesystem"));
    assert!(matches!(t.phase, InstallPhase::Failed { step: InstallStep::Copy, .. }));
    let e = t.failure_error();
    assert_eq!(e.context, "copy ollama app to applications list");
}

#[test]
fn detach_failure_does_not_fail_a_completed_install() {
    let mut t = install();
    t.on_mount_result(true, String::new());
    t.on_copy_result(true, String::new());
    t.on_detach_result(false);
    assert!(matches!(t.phase, InstallPhase::Done { detach_failed: true }));
}

#[test]
fn install_paths_are_fixed() {
    assert_eq!(mounted_volume(), "/Volumes/Ollama");
    assert_eq!(bundle_source(), "/Volumes/Ollama/Ollama.app");
    assert_eq!(bundle_destination(), "/Applications/Ollama.app");
    assert_eq!(version_flag(), "-v");
}
