//! Host facts: platform, architecture, and the accelerator decision made from
//! the GPU profiler's report.

use vstd::prelude::*;

verus! {

/// Operating system the runtime archive is built for.
#[derive(Clone, Copy, PartialEq, Eq, Structural, Debug)]
pub enum Platform {
    Linux,
    Macos,
    Windows,
}

/// Processor architecture the runtime archive is built for.
#[derive(Clone, Copy, PartialEq, Eq, Structural, Debug)]
pub enum Arch {
    Amd64,
    Arm64,
}

/// Which acceleration variant of the runtime to provision.
#[derive(Clone, Copy, PartialEq, Eq, Structural, Debug)]
pub enum Accelerator {
    /// The default archive serves both plain CPU hosts and NVIDIA hosts.
    Nvidia,
    /// A supplementary add-on archive is fetched for non-NVIDIA GPUs.
    Rocm,
}

/// The GPU profiler's finding: the vendor diagnostic tool could be spawned
/// and exited successfully. Any launch failure or non-zero exit means the
/// accelerator is treated as absent, never as an error.
pub fn gpu_present(spawn_ok: bool, exit_success: bool) -> (r: bool)
    ensures
        r == (spawn_ok && exit_success),
{
    spawn_ok && exit_success
}

/// Chooses the accelerator variant from the profiler's report: the add-on
/// variant is selected exactly when no NVIDIA accelerator is present.
pub fn resolve_accelerator(nvidia_present: bool) -> (r: Accelerator)
    ensures
        r is Rocm <==> !nvidia_present,
{
    if nvidia_present {
        Accelerator::Nvidia
    } else {
        Accelerator::Rocm
    }
}

} // verus!
