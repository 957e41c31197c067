//! UEFI targets and target triples as the tool's options name them.

use crate::text::{push_str, str_eq, string_of};
use vstd::prelude::*;

verus! {

/// UEFI target to build for.
#[derive(Clone, Copy, Debug, PartialEq, Eq, Structural)]
pub enum UefiTarget {
    Aarch64,
    X86_64,
}

impl Default for UefiTarget {
    fn default() -> (t: Self)
        ensures
            t == UefiTarget::X86_64,
    {
        UefiTarget::X86_64
    }
}

/// The name of a target.
pub open spec fn target_name(t: UefiTarget) -> Seq<char> {
    match t {
        UefiTarget::Aarch64 => "aarch64"@,
        UefiTarget::X86_64 => "x86_64"@,
    }
}

/// The message of a failed parse of `s` as a target or triple.
pub open spec fn invalid_message(what: Seq<char>, s: Seq<char>) -> Seq<char> {
    "invalid "@ + what + ": "@ + s
}

impl UefiTarget {
    /// The name of the target, as it is displayed.
    pub fn name(&self) -> (s: &'static str)
        ensures
            s@ == target_name(*self),
    {
        match self {
            UefiTarget::Aarch64 => "aarch64",
            UefiTarget::X86_64 => "x86_64",
        }
    }

    /// Parses a target name.
    pub fn from_str(s: &str) -> (r: Result<UefiTarget, String>)
        ensures
            match r {
                Ok(t) => target_name(t) == s@,
                Err(e) => e@ == invalid_message("target"@, s@) && s@ != "aarch64"@ && s@
                    != "x86_64"@,
            },
    {
        if str_eq(s, "aarch64") {
            Ok(UefiTarget::Aarch64)
        } else if str_eq(s, "x86_64") {
            Ok(UefiTarget::X86_64)
        } else {
            let mut e = string_of("invalid ");
            push_str(&mut e, "target");
            push_str(&mut e, ": ");
            push_str(&mut e, s);
            Err(e)
        }
    }

    /// The Rust target triple of the target.
    pub fn target_triple(&self) -> (s: &'static str)
        ensures
            s@ == match *self {
                UefiTarget::Aarch64 => "aarch64-unknown-uefi"@,
                UefiTarget::X86_64 => "x86_64-unknown-uefi"@,
            },
    {
        match self {
            UefiTarget::Aarch64 => "aarch64-unknown-uefi",
            UefiTarget::X86_64 => "x86_64-unknown-uefi",
        }
    }
}

/// A UEFI target triple, named by its architecture.
#[derive(Clone, Copy, Debug, PartialEq, Eq, Structural)]
pub enum Triple {
    AArch64UnknownUefi,
    X86_64UnknownUefi,
}

impl Triple {
    /// Parses a triple from the name of its architecture.
    pub fn from_str(s: &str) -> (r: Result<Triple, String>)
        ensures
            match r {
                Ok(t) => s@ == match t {
                    Triple::AArch64UnknownUefi => "aarch64"@,
                    Triple::X86_64UnknownUefi => "x86_64"@,
                },
                Err(e) => e@ == invalid_message("triple"@, s@) && s@ != "aarch64"@ && s@
                    != "x86_64"@,
            },
    {
        if str_eq(s, "aarch64") {
            Ok(Triple::AArch64UnknownUefi)
        } else if str_eq(s, "x86_64") {
            Ok(Triple::X86_64UnknownUefi)
        } else {
            let mut e = string_of("invalid ");
            push_str(&mut e, "triple");
            push_str(&mut e, ": ");
            push_str(&mut e, s);
            Err(e)
        }
    }
}

/// Parsing the name of a target gives back the target.
pub proof fn lemma_target_name_roundtrip(t: UefiTarget, u: UefiTarget)
    ensures
        target_name(t) == target_name(u) ==> t == u,
{
    reveal_strlit("aarch64");
    reveal_strlit("x86_64");
    assert("aarch64"@[0] != "x86_64"@[0]);
}

} // verus!
