//! The tool's command-line options.

use crate::xtask::arch::UefiArch;
use vstd::prelude::*;

verus! {

/// Developer utility for running various tasks in uefi-rs.
#[derive(Debug)]
pub struct Opt {
    pub action: Action,
}

/// What the tool is asked to do.
#[derive(Debug)]
pub enum Action {
    Build(BuildOpt),
    Clippy(ClippyOpt),
    Doc(DocOpt),
    Run(QemuOpt),
    /// Run unit tests and doctests on the host.
    Test,
    Ci(CiJob),
}

/// Build all the uefi packages.
#[derive(Clone, Copy, Debug, PartialEq, Eq, Structural)]
pub struct BuildOpt {
    /// UEFI target to build for.
    pub target: UefiArch,
    /// Build in release mode.
    pub release: bool,
}

/// Run clippy on all the packages.
#[derive(Clone, Copy, Debug, PartialEq, Eq, Structural)]
pub struct ClippyOpt {
    /// UEFI target to build for.
    pub target: UefiArch,
    /// Treat warnings as errors.
    pub warnings_as_errors: bool,
}

/// Build the docs for the uefi packages.
#[derive(Clone, Copy, Debug, PartialEq, Eq, Structural)]
pub struct DocOpt {
    /// Open the docs in a browser.
    pub open: bool,
    /// Treat warnings as errors.
    pub warnings_as_errors: bool,
}

/// Build uefi-test-runner and run it in QEMU.
#[derive(Debug)]
pub struct QemuOpt {
    /// UEFI target to build for.
    pub target: UefiArch,
    /// Build in release mode.
    pub release: bool,
    /// Disable hardware accelerated virtualization support in QEMU.
    pub disable_kvm: bool,
    /// Disable some tests that don't work in the CI.
    pub ci: bool,
    /// Run QEMU without a GUI.
    pub headless: bool,
    /// Directory in which to look for OVMF files.
    pub ovmf_dir: Option<String>,
}

/// Run one (or all) of the CI jobs.
#[derive(Clone, Copy, Debug, PartialEq, Eq, Structural)]
pub enum CiJob {
    BuildAArch64,
    VmTestX86_64,
    HostTest,
    Lint,
    All,
}

} // verus!
