//! The developer tool that builds, checks and tests the packages: which
//! commands it runs with which arguments, and in which order.
//!
//! The tool's own part is deciding the commands; running them is left to its
//! user.

pub mod arch;
pub mod cargo;
pub mod target;
pub mod opt;
pub mod qemu;
pub mod ci;
pub mod check_raw;
