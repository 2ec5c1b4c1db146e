use singularity_llm::install::ollama_binary_location;
use singularity_llm::install::serve_plan;
use singularity_llm::platform::Accelerator;
use singularity_llm::platform::Arch;
use singularity_llm::platform::Platform;
use singularity_llm::platform::gpu_present;
use singularity_llm::platform::resolve_accelerator;
use singularity_llm::variant::ArchiveFormat;
use singularity_llm::variant::ProvisionStep;
use singularity_llm::variant::archive_set;
use singularity_llm::variant::provision_steps;

#[test]
fn accelerator_follows_the_profiler() {
    assert!(matches!(resolve_accelerator(true), Accelerator::Nvidia));
    assert!(matches!(resolve_accelerator(false), Accelerator::Rocm));
    assert!(gpu_present(true, true));
    assert!(!gpu_present(true, false));
    assert!(!gpu_present(false, true));
    assert!(!gpu_present(false, false));
}

#[test]
fn linux_amd64_without_nvidia_fetches_the_addon() {
    let set = archive_set(Platform::Linux, Arch::Amd64, false);
    assert_eq!(set.len(), 2);
    assert_eq!(set[0].url, "https://ollama.com/download/ollama-linux-amd64.tgz");
    assert_eq!(set[0].filename, "ollama.tgz");
    assert!(matches!(set[0].format, ArchiveFormat::TarGz));
    assert_eq!(set[1].url, "https://ollama.com/download/ollama-linux-amd64-rocm.tgz");
    assert_eq!(set[1].filename, "ollama_rocm.tgz");
    assert!(matches!(set[1].format, ArchiveFormat::TarGz));
}

#[test]
fn linux_amd64_with_nvidia_fetches_the_base_archive_alone() {
    let set = archive_set(Platform::Linux, Arch::Amd64, true);
    assert_eq!(set.len(), 1);
    assert_eq!(set[0].url, "https://ollama.com/download/ollama-linux-amd64.tgz");
}

#[test]
fn windows_amd64_addon_follows_the_profiler() {
    let with_addon = archive_set(Platform::Windows, Arch::Amd64, false);
    assert_eq!(with_addon.len(), 2);
    assert_eq!(with_addon[1].url, "https://ollama.com/download/ollama-windows-amd64-rocm.zip");
    assert_eq!(with_addon[1].filename, "ollama_rocm.zip");
    assert!(matches!(with_addon[0].format, ArchiveFormat::Zip));

    let without = archive_set(Platform::Windows, Arch::Amd64, true);
    assert_eq!(without.len(), 1);
}

#[test]
fn hosts_without_a_published_addon_fetch_one_archive() {
    for nvidia in [false, true] {
        assert_eq!(archive_set(Platform::Macos, Arch::Arm64, nvidia).len(), 1);
        assert_eq!(archive_set(Platform::Macos, Arch::Amd64, nvidia).len(), 1);
        assert_eq!(archive_set(Platform::Linux, Arch::Arm64, nvidia).len(), 1);
        assert_eq!(archive_set(Platform::Windows, Arch::Arm64, nvidia).len(), 1);
    }
}

#[test]
fn macos_variants_resolve_their_own_urls_and_formats() {
    let arm = archive_set(Platform::Macos, Arch::Arm64, true);
    assert_eq!(arm[0].url, "https://ollama.com/download/Ollama.dmg");
    assert_eq!(arm[0].filename, "ollama.dmg");
    assert!(matches!(arm[0].format, ArchiveFormat::DiskImage));

    let amd = archive_set(Platform::Macos, Arch::Amd64, true);
    assert_eq!(amd[0].url, "https://ollama.com/download/ollama-darwin.tgz");
    assert_eq!(amd[0].filename, "ollama.tgz");
    assert!(matches!(amd[0].format, ArchiveFormat::TarGz));

    let arm64_linux = archive_set(Platform::Linux, Arch::Arm64, true);
    assert_eq!(arm64_linux[0].url, "https://ollama.com/download/ollama-linux-arm64.tgz");

    let arm64_windows = archive_set(Platform::Windows, Arch::Arm64, true);
    assert_eq!(arm64_windows[0].url, "https://ollama.com/download/ollama-windows-arm64.zip");
    assert_eq!(arm64_windows[0].filename, "ollama.zip");
}

#[test]
fn linux_provisioning_fetches_and_unpacks_each_archive() {
    let steps = provision_steps(Platform::Linux, Arch::Amd64, false, "/cache", "/data/ollama");
    assert_eq!(steps.len(), 4);
    match &steps[0] {
        ProvisionStep::Fetch { url, destination } => {
            assert_eq!(url, "https://ollama.com/download/ollama-linux-amd64.tgz");
            assert_eq!(destination, "/cache/ollama.tgz");
        },
        other => panic!("expected a fetch, got {:?}", other),
    }
    match &steps[1] {
        ProvisionStep::Unpack { archive, target, format } => {
            assert_eq!(archive, "/cache/ollama.tgz");
            assert_eq!(target, "/data/ollama");
            assert!(matches!(format, ArchiveFormat::TarGz));
        },
        other => panic!("expected an unpack, got {:?}", other),
    }
    match &steps[2] {
        ProvisionStep::Fetch { url, destination } => {
            assert_eq!(url, "https://ollama.com/download/ollama-linux-amd64-rocm.tgz");
            assert_eq!(destination, "/cache/ollama_rocm.tgz");
        },
        other => panic!("expected a fetch, got {:?}", other),
    }
    match &steps[3] {
        ProvisionStep::Unpack { archive, target, .. } => {
            assert_eq!(archive, "/cache/ollama_rocm.tgz");
            assert_eq!(target, "/data/ollama", "both archives unpack into one tree");
        },
        other => panic!("expected an unpack, got {:?}", other),
    }
}

#[test]
fn macos_arm64_provisioning_mounts_the_disk_image() {
    let steps = provision_steps(Platform::Macos, Arch::Arm64, true, "/cache", "/data/ollama");
    assert_eq!(steps.len(), 2);
    match &steps[1] {
        ProvisionStep::MountInstall { image } => assert_eq!(image, "/cache/ollama.dmg"),
        other => panic!("expected a mount install, got {:?}", other),
    }
}

#[test]
fn macos_amd64_provisioning_unpacks_into_a_subdirectory() {
    let steps = provision_steps(Platform::Macos, Arch::Amd64, true, "/cache", "/data/ollama");
    assert_eq!(steps.len(), 2);
    match &steps[1] {
        ProvisionStep::Unpack { target, .. } => assert_eq!(target, "/data/ollama/ollama"),
        other => panic!("expected an unpack, got {:?}", other),
    }
}

#[test]
fn binary_locations_follow_the_fixed_mapping() {
    assert_eq!(ollama_binary_location("/d", Platform::Linux, Arch::Amd64), "/d/bin/ollama");
    assert_eq!(ollama_binary_location("/d", Platform::Linux, Arch::Arm64), "/d/bin/ollama");
    assert_eq!(
        ollama_binary_location("/d", Platform::Macos, Arch::Arm64),
        "/d/Ollama.app/Contents/Resources/ollama"
    );
    assert_eq!(ollama_binary_location("/d", Platform::Macos, Arch::Amd64), "/d/ollama/ollama");
    assert_eq!(ollama_binary_location("/d", Platform::Windows, Arch::Amd64), "/d/ollama.exe");
}

#[test]
fn serve_plan_runs_the_binary_with_the_serve_subcommand() {
    let plan = serve_plan("/data/ollama", Platform::Linux, Arch::Amd64);
    assert_eq!(plan.binary, "/data/ollama/bin/ollama");
    assert_eq!(plan.subcommand, "serve");
}
