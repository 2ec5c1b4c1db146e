//! The archive installer's platform-specific pieces that are not a plain
//! unpack: the disk-image mount/copy/detach procedure, the binary-location
//! mapping, and the serve invocation.
//!
//! The disk-image install is a state machine: the unverified driver runs
//! each external command the current phase calls for and reports whether it
//! succeeded. Mount and copy failures are fatal; a detach failure is
//! best-effort cleanup only and never converts a completed install into a
//! failure.

use vstd::prelude::*;
use vstd::string::StringExecFns;

use crate::appdir::join_path;
use crate::error::BetterIoError;
use crate::platform::Arch;
use crate::platform::Platform;

verus! {

/// A step of the disk-image install procedure.
#[derive(Clone, Copy, PartialEq, Eq, Structural, Debug)]
pub enum InstallStep {
    /// Mount the disk image as a volume.
    Mount,
    /// Recursively copy the application bundle from the mounted volume into
    /// the system application directory.
    Copy,
    /// Detach the mounted volume.
    Detach,
}

/// Where a disk-image install stands. Each active phase names the external
/// command the driver must run next.
#[derive(Debug)]
pub enum InstallPhase {
    Mounting,
    Copying,
    Detaching,
    /// The install completed: the bundle was copied. `detach_failed` records
    /// whether the best-effort cleanup needed manual action.
    Done { detach_failed: bool },
    /// Mounting or copying failed; the install did not complete.
    Failed { step: InstallStep, cause: String },
}

/// One disk-image install of the runtime bundle.
#[derive(Debug)]
pub struct DiskImageInstall {
    /// Path of the downloaded disk image.
    pub image: String,
    pub phase: InstallPhase,
}

impl DiskImageInstall {
    /// Begins an install of the given disk image; the driver's first duty is
    /// mounting it.
    pub fn new(image: String) -> (t: Self)
        ensures
            t.image == image,
            t.phase is Mounting,
    {
        DiskImageInstall { image, phase: InstallPhase::Mounting }
    }

    /// Records the mount command's outcome: on success the bundle copy is
    /// next; on failure the install fails at the mount step.
    pub fn on_mount_result(&mut self, success: bool, cause: String)
        requires
            old(self).phase is Mounting,
        ensures
            final(self).image == old(self).image,
            success ==> final(self).phase is Copying,
            !success ==> (final(self).phase matches InstallPhase::Failed { step, cause: c }
                && step is Mount && c == cause),
    {
        if success {
            self.phase = InstallPhase::Copying;
        } else {
            self.phase = InstallPhase::Failed { step: InstallStep::Mount, cause };
        }
    }

    /// Records the copy command's outcome: on success the volume detach is
    /// next; on failure the install fails at the copy step.
    pub fn on_copy_result(&mut self, success: bool, cause: String)
        requires
            old(self).phase is Copying,
        ensures
            final(self).image == old(self).image,
            success ==> final(self).phase is Detaching,
            !success ==> (final(self).phase matches InstallPhase::Failed { step, cause: c }
                && step is Copy && c == cause),
    {
        if success {
            self.phase = InstallPhase::Detaching;
        } else {
            self.phase = InstallPhase::Failed { step: InstallStep::Copy, cause };
        }
    }

    /// Records the detach command's outcome. Detaching is best-effort
    /// cleanup: the install is complete either way, and a failure is only
    /// recorded so the driver can log that manual action is needed.
    pub fn on_detach_result(&mut self, success: bool)
        requires
            old(self).phase is Detaching,
        ensures
            final(self).image == old(self).image,
            final(self).phase matches InstallPhase::Done { detach_failed } && detach_failed
                == !success,
    {
        self.phase = InstallPhase::Done { detach_failed: !success };
    }

    /// Maps a failed install onto the error taxonomy, naming the image path
    /// and the step that failed.
    pub fn failure_error(&self) -> (r: BetterIoError)
        requires
            self.phase is Failed,
        ensures
            self.phase matches InstallPhase::Failed { step, cause } ==> r.location == self.image
                && r.context@ == install_step_label(step) && r.error == cause,
    {
        match &self.phase {
            InstallPhase::Failed { step, cause } => BetterIoError::new(
                self.image.clone(),
                install_step_label_text(*step),
                cause.clone(),
            ),
            _ => {
                proof {
                    assert(false);
                }
                BetterIoError::new(String::new(), String::new(), String::new())
            },
        }
    }
}

/// The label each install step's failure is reported under.
pub open spec fn install_step_label(step: InstallStep) -> Seq<char> {
    match step {
        InstallStep::Mount => "mount ollama disk image for installation"@,
        InstallStep::Copy => "copy ollama app to applications list"@,
        InstallStep::Detach => "unmount ollama disk image from system"@,
    }
}

/// Renders the label of an install step.
pub fn install_step_label_text(step: InstallStep) -> (r: String)
    ensures
        r@ == install_step_label(step),
{
    match step {
        InstallStep::Mount => String::from_str("mount ollama disk image for installation"),
        InstallStep::Copy => String::from_str("copy ollama app to applications list"),
        InstallStep::Detach => String::from_str("unmount ollama disk image from system"),
    }
}

/// The volume path the disk image mounts at.
pub fn mounted_volume() -> (r: String)
    ensures
        r@ == "/Volumes/Ollama"@,
{
    String::from_str("/Volumes/Ollama")
}

/// The application bundle inside the mounted volume.
pub fn bundle_source() -> (r: String)
    ensures
        r@ == "/Volumes/Ollama/Ollama.app"@,
{
    String::from_str("/Volumes/Ollama/Ollama.app")
}

/// Where the application bundle is copied to.
pub fn bundle_destination() -> (r: String)
    ensures
        r@ == "/Applications/Ollama.app"@,
{
    String::from_str("/Applications/Ollama.app")
}

/// The fixed relative path from the runtime directory to the executable
/// binary: a pure function of platform and architecture, not discovered at
/// runtime.
pub open spec fn binary_subpath(p: Platform, a: Arch) -> Seq<char> {
    match (p, a) {
        (Platform::Linux, _) => "bin/ollama"@,
        (Platform::Macos, Arch::Arm64) => "Ollama.app/Contents/Resources/ollama"@,
        (Platform::Macos, Arch::Amd64) => "ollama/ollama"@,
        (Platform::Windows, _) => "ollama.exe"@,
    }
}

/// Locates the runtime binary under the runtime directory, by the fixed
/// per-platform mapping.
pub fn ollama_binary_location(ollama_dir: &str, p: Platform, a: Arch) -> (r: String)
    ensures
        r@ == ollama_dir@ + "/"@ + binary_subpath(p, a),
{
    match (p, a) {
        (Platform::Linux, _) => join_path(ollama_dir, "bin/ollama"),
        (Platform::Macos, Arch::Arm64) => join_path(ollama_dir, "Ollama.app/Contents/Resources/ollama"),
        (Platform::Macos, Arch::Amd64) => join_path(ollama_dir, "ollama/ollama"),
        (Platform::Windows, _) => join_path(ollama_dir, "ollama.exe"),
    }
}

/// How the runtime process is spawned.
#[derive(Debug)]
pub struct ServePlan {
    /// The binary to spawn.
    pub binary: String,
    /// Its single argument.
    pub subcommand: String,
}

/// The serve invocation for a host: the located binary, run with the serve
/// subcommand. The driver must capture its standard output, let it inherit
/// standard error for diagnostics, and arrange that dropping the handle
/// terminates the process.
pub fn serve_plan(ollama_dir: &str, p: Platform, a: Arch) -> (r: ServePlan)
    ensures
        r.binary@ == ollama_dir@ + "/"@ + binary_subpath(p, a),
        r.subcommand@ == "serve"@,
{
    ServePlan {
        binary: ollama_binary_location(ollama_dir, p, a),
        subcommand: String::from_str("serve"),
    }
}

/// The version flag the installed binary is probed with.
pub fn version_flag() -> (r: String)
    ensures
        r@ == "-v"@,
{
    String::from_str("-v")
}

} // verus!
