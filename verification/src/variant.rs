//! Archive-variant resolution: which archives a host must fetch, where each
//! is cached, and how each is installed.
//!
//! The mapping from (platform, architecture, accelerator) to download URL,
//! cache filename and archive format is a fixed table, computed once per run
//! from host facts plus the GPU profiler's result.

use vstd::prelude::*;
use vstd::string::StringExecFns;

use crate::appdir::join_path;
use crate::platform::Arch;
use crate::platform::Platform;

verus! {

/// How a fetched archive is turned into an installed runtime.
#[derive(Clone, Copy, PartialEq, Eq, Structural, Debug)]
pub enum ArchiveFormat {
    /// Decompress and extract in one streaming pass into the target
    /// directory.
    TarGz,
    /// Extract all entries into the target directory.
    Zip,
    /// Mount the image, copy the application bundle into the system
    /// application directory, then detach the volume.
    DiskImage,
}

/// The download URL of the base runtime archive for a host.
pub open spec fn base_archive_url(p: Platform, a: Arch) -> Seq<char> {
    match (p, a) {
        (Platform::Linux, Arch::Amd64) => "https://ollama.com/download/ollama-linux-amd64.tgz"@,
        (Platform::Linux, Arch::Arm64) => "https://ollama.com/download/ollama-linux-arm64.tgz"@,
        (Platform::Macos, Arch::Amd64) => "https://ollama.com/download/ollama-darwin.tgz"@,
        (Platform::Macos, Arch::Arm64) => "https://ollama.com/download/Ollama.dmg"@,
        (Platform::Windows, Arch::Amd64) => "https://ollama.com/download/ollama-windows-amd64.zip"@,
        (Platform::Windows, Arch::Arm64) => "https://ollama.com/download/ollama-windows-arm64.zip"@,
    }
}

/// The cache filename of the base runtime archive for a host.
pub open spec fn base_archive_filename(p: Platform, a: Arch) -> Seq<char> {
    match (p, a) {
        (Platform::Linux, _) => "ollama.tgz"@,
        (Platform::Macos, Arch::Amd64) => "ollama.tgz"@,
        (Platform::Macos, Arch::Arm64) => "ollama.dmg"@,
        (Platform::Windows, _) => "ollama.zip"@,
    }
}

/// Whether the vendor publishes an accelerator add-on archive for this host.
pub open spec fn addon_available(p: Platform, a: Arch) -> bool {
    a is Amd64 && (p is Linux || p is Windows)
}

/// The download URL of the accelerator add-on archive, where one exists.
pub open spec fn addon_archive_url(p: Platform) -> Seq<char> {
    match p {
        Platform::Linux => "https://ollama.com/download/ollama-linux-amd64-rocm.tgz"@,
        Platform::Windows => "https://ollama.com/download/ollama-windows-amd64-rocm.zip"@,
        Platform::Macos => Seq::<char>::empty(),
    }
}

/// The cache filename of the accelerator add-on archive, where one exists.
pub open spec fn addon_archive_filename(p: Platform) -> Seq<char> {
    match p {
        Platform::Linux => "ollama_rocm.tgz"@,
        Platform::Windows => "ollama_rocm.zip"@,
        Platform::Macos => Seq::<char>::empty(),
    }
}

/// The archive format each host's archives come in.
pub open spec fn archive_format(p: Platform, a: Arch) -> ArchiveFormat {
    match (p, a) {
        (Platform::Linux, _) => ArchiveFormat::TarGz,
        (Platform::Macos, Arch::Amd64) => ArchiveFormat::TarGz,
        (Platform::Macos, Arch::Arm64) => ArchiveFormat::DiskImage,
        (Platform::Windows, _) => ArchiveFormat::Zip,
    }
}

/// One archive to fetch: its URL, the filename it is cached under, and its
/// format.
#[derive(Debug)]
pub struct ArchiveSpec {
    pub url: String,
    pub filename: String,
    pub format: ArchiveFormat,
}

/// Renders the base archive URL for a host.
pub fn base_archive_url_text(p: Platform, a: Arch) -> (r: String)
    ensures
        r@ == base_archive_url(p, a),
{
    match (p, a) {
        (Platform::Linux, Arch::Amd64) => String::from_str(
            "https://ollama.com/download/ollama-linux-amd64.tgz",
        ),
        (Platform::Linux, Arch::Arm64) => String::from_str(
            "https://ollama.com/download/ollama-linux-arm64.tgz",
        ),
        (Platform::Macos, Arch::Amd64) => String::from_str(
            "https://ollama.com/download/ollama-darwin.tgz",
        ),
        (Platform::Macos, Arch::Arm64) => String::from_str("https://ollama.com/download/Ollama.dmg"),
        (Platform::Windows, Arch::Amd64) => String::from_str(
            "https://ollama.com/download/ollama-windows-amd64.zip",
        ),
        (Platform::Windows, Arch::Arm64) => String::from_str(
            "https://ollama.com/download/ollama-windows-arm64.zip",
        ),
    }
}

/// Renders the base archive's cache filename for a host.
pub fn base_archive_filename_text(p: Platform, a: Arch) -> (r: String)
    ensures
        r@ == base_archive_filename(p, a),
{
    match (p, a) {
        (Platform::Linux, _) => String::from_str("ollama.tgz"),
        (Platform::Macos, Arch::Amd64) => String::from_str("ollama.tgz"),
        (Platform::Macos, Arch::Arm64) => String::from_str("ollama.dmg"),
        (Platform::Windows, _) => String::from_str("ollama.zip"),
    }
}

/// Renders the add-on archive URL for a host that has one.
pub fn addon_archive_url_text(p: Platform) -> (r: String)
    requires
        p is Linux || p is Windows,
    ensures
        r@ == addon_archive_url(p),
{
    match p {
        Platform::Linux => String::from_str("https://ollama.com/download/ollama-linux-amd64-rocm.tgz"),
        Platform::Windows => String::from_str(
            "https://ollama.com/download/ollama-windows-amd64-rocm.zip",
        ),
        Platform::Macos => {
            proof {
                assert(false);
            }
            String::new()
        },
    }
}

/// Renders the add-on archive's cache filename for a host that has one.
pub fn addon_archive_filename_text(p: Platform) -> (r: String)
    requires
        p is Linux || p is Windows,
    ensures
        r@ == addon_archive_filename(p),
{
    match p {
        Platform::Linux => String::from_str("ollama_rocm.tgz"),
        Platform::Windows => String::from_str("ollama_rocm.zip"),
        Platform::Macos => {
            proof {
                assert(false);
            }
            String::new()
        },
    }
}

/// Renders the archive format for a host.
pub fn archive_format_of(p: Platform, a: Arch) -> (r: ArchiveFormat)
    ensures
        r == archive_format(p, a),
{
    match (p, a) {
        (Platform::Linux, _) => ArchiveFormat::TarGz,
        (Platform::Macos, Arch::Amd64) => ArchiveFormat::TarGz,
        (Platform::Macos, Arch::Arm64) => ArchiveFormat::DiskImage,
        (Platform::Windows, _) => ArchiveFormat::Zip,
    }
}

/// Decides whether the vendor publishes an accelerator add-on for this host.
pub fn addon_available_of(p: Platform, a: Arch) -> (r: bool)
    ensures
        r == addon_available(p, a),
{
    match (p, a) {
        (Platform::Linux, Arch::Amd64) => true,
        (Platform::Windows, Arch::Amd64) => true,
        _ => false,
    }
}

/// The set of archives a host must fetch.
///
/// Law (accelerator selection): on a host for which the vendor publishes an
/// accelerator add-on, the set includes the add-on archive if and only if
/// the GPU profiler reports no NVIDIA accelerator present; the base archive
/// is always first, and nothing else is ever fetched. (Hosts without a
/// published add-on — macOS, and arm64 — fetch the base archive alone
/// whatever the profiler reported.)
pub fn archive_set(p: Platform, a: Arch, nvidia_present: bool) -> (r: Vec<ArchiveSpec>)
    ensures
        r@.len() == 2 <==> (!nvidia_present && addon_available(p, a)),
        r@.len() == 1 <==> !(!nvidia_present && addon_available(p, a)),
        r@[0].url@ == base_archive_url(p, a),
        r@[0].filename@ == base_archive_filename(p, a),
        r@[0].format == archive_format(p, a),
        r@.len() == 2 ==> r@[1].url@ == addon_archive_url(p) && r@[1].filename@
            == addon_archive_filename(p) && r@[1].format == archive_format(p, a),
{
    let mut set: Vec<ArchiveSpec> = Vec::new();
    set.push(
        ArchiveSpec {
            url: base_archive_url_text(p, a),
            filename: base_archive_filename_text(p, a),
            format: archive_format_of(p, a),
        },
    );
    if !nvidia_present && addon_available_of(p, a) {
        set.push(
            ArchiveSpec {
                url: addon_archive_url_text(p),
                filename: addon_archive_filename_text(p),
                format: archive_format_of(p, a),
            },
        );
    }
    set
}

/// One step of the provisioning sequence that installs the runtime.
#[derive(Debug)]
pub enum ProvisionStep {
    /// Fetch `url` to the cache path `destination` (skipped by the
    /// downloader when the cache already holds it in full).
    Fetch { url: String, destination: String },
    /// Unpack the cached archive into `target` according to `format`.
    Unpack { archive: String, target: String, format: ArchiveFormat },
    /// Mount the cached disk image and copy the application bundle into the
    /// system application directory.
    MountInstall { image: String },
}

/// The cache path an archive filename resolves to.
pub open spec fn cached_path(cache_dir: Seq<char>, filename: Seq<char>) -> Seq<char> {
    cache_dir + "/"@ + filename
}

/// The directory an archive is unpacked into: the runtime directory itself,
/// except that the macOS tarball unpacks into a subdirectory of its own.
pub open spec fn unpack_target(p: Platform, a: Arch, target_dir: Seq<char>) -> Seq<char> {
    if p is Macos && a is Amd64 {
        target_dir + "/"@ + "ollama"@
    } else {
        target_dir
    }
}

/// The provisioning sequence for a host: fetch each archive of the host's
/// archive set into the cache, and unpack — or, for the disk image, mount
/// and install — each into the runtime directory. Invoked archives share one
/// target tree; the add-on, when fetched, is unpacked over the base archive.
pub fn provision_steps(
    p: Platform,
    a: Arch,
    nvidia_present: bool,
    cache_dir: &str,
    target_dir: &str,
) -> (r: Vec<ProvisionStep>)
    ensures
        r@.len() == 4 <==> (!nvidia_present && addon_available(p, a)),
        r@.len() == 4 || r@.len() == 2,
        (r@[0] matches ProvisionStep::Fetch { url, destination } && url@ == base_archive_url(p, a)
            && destination@ == cached_path(cache_dir@, base_archive_filename(p, a))),
        p is Macos && a is Arm64 ==> (r@[1] matches ProvisionStep::MountInstall { image }
            && image@ == cached_path(cache_dir@, base_archive_filename(p, a))),
        !(p is Macos && a is Arm64) ==> (r@[1] matches ProvisionStep::Unpack {
            archive,
            target,
            format,
        } && archive@ == cached_path(cache_dir@, base_archive_filename(p, a)) && target@
            == unpack_target(p, a, target_dir@) && format == archive_format(p, a)),
        r@.len() == 4 ==> (r@[2] matches ProvisionStep::Fetch { url, destination } && url@
            == addon_archive_url(p) && destination@ == cached_path(
            cache_dir@,
            addon_archive_filename(p),
        )),
        r@.len() == 4 ==> (r@[3] matches ProvisionStep::Unpack { archive, target, format }
            && archive@ == cached_path(cache_dir@, addon_archive_filename(p)) && target@
            == target_dir@ && format == archive_format(p, a)),
{
    let mut steps: Vec<ProvisionStep> = Vec::new();
    let base_dest = join_path(cache_dir, base_archive_filename_text(p, a).as_str());
    steps.push(
        ProvisionStep::Fetch { url: base_archive_url_text(p, a), destination: base_dest.clone() },
    );
    match (p, a) {
        (Platform::Macos, Arch::Arm64) => {
            steps.push(ProvisionStep::MountInstall { image: base_dest });
        },
        _ => {
            let target = if matches!(p, Platform::Macos) {
                join_path(target_dir, "ollama")
            } else {
                target_dir.to_owned()
            };
            steps.push(
                ProvisionStep::Unpack {
                    archive: base_dest,
                    target,
                    format: archive_format_of(p, a),
                },
            );
        },
    }
    if !nvidia_present && addon_available_of(p, a) {
        let addon_dest = join_path(cache_dir, addon_archive_filename_text(p).as_str());
        steps.push(
            ProvisionStep::Fetch {
                url: addon_archive_url_text(p),
                destination: addon_dest.clone(),
            },
        );
        steps.push(
            ProvisionStep::Unpack {
                archive: addon_dest,
                target: target_dir.to_owned(),
                format: archive_format_of(p, a),
            },
        );
    }
    steps
}

} // verus!
