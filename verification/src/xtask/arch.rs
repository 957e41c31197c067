//! UEFI architectures.

use vstd::prelude::*;

verus! {

/// A UEFI architecture.
#[derive(Clone, Copy, Debug, PartialEq, Eq, Structural)]
pub enum UefiArch {
    /// 64-bit ARM.
    AArch64,
    /// 32-bit x86.
    IA32,
    /// 64-bit x86.
    X86_64,
}

/// The name of an architecture.
pub open spec fn arch_name(a: UefiArch) -> Seq<char> {
    match a {
        UefiArch::AArch64 => "aarch64"@,
        UefiArch::IA32 => "ia32"@,
        UefiArch::X86_64 => "x86_64"@,
    }
}

/// The target triple of an architecture.
pub open spec fn arch_triple(a: UefiArch) -> Seq<char> {
    match a {
        UefiArch::AArch64 => "aarch64-unknown-uefi"@,
        UefiArch::IA32 => "i686-unknown-uefi"@,
        UefiArch::X86_64 => "x86_64-unknown-uefi"@,
    }
}

impl UefiArch {
    /// The name of the architecture, as the tool's options spell it.
    pub fn as_str(self) -> (s: &'static str)
        ensures
            s@ == arch_name(self),
    {
        match self {
            UefiArch::AArch64 => "aarch64",
            UefiArch::IA32 => "ia32",
            UefiArch::X86_64 => "x86_64",
        }
    }

    /// The Rust target triple of the architecture.
    pub fn as_triple(self) -> (s: &'static str)
        ensures
            s@ == arch_triple(self),
    {
        match self {
            UefiArch::AArch64 => "aarch64-unknown-uefi",
            UefiArch::IA32 => "i686-unknown-uefi",
            UefiArch::X86_64 => "x86_64-unknown-uefi",
        }
    }
}

impl Default for UefiArch {
    fn default() -> (a: Self)
        ensures
            a == UefiArch::X86_64,
    {
        UefiArch::X86_64
    }
}

} // verus!
