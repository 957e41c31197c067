//! UEFI in Rust: the library's status codes, errors, buffers and protocol
//! data; the stub firmware that runs the test runner on the host; and the
//! developer tool that builds, lints and tests the packages.

pub mod status;
pub mod error;
pub mod buffer;
pub mod align;
pub mod guid;
pub mod boot_services;
pub mod memory;
pub mod runtime_services;
pub mod text;
pub mod device_path_text;
pub mod logger;
pub mod usb;
pub mod table;
pub mod pool_string;
pub mod http;
pub mod console;
pub mod shared_box;
pub mod firmware;
pub mod rng;
pub mod runner;
pub mod xtask;
