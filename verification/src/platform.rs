//! The platforms that releases are built for.

use vstd::prelude::*;

verus! {

/// The processor architecture of the machine the launcher runs on. Release
/// assets are published once per architecture.
#[derive(Clone, Copy, Debug, PartialEq, Eq, Structural)]
pub enum Arch {
    /// 32-bit x86.
    X86,
    /// 64-bit x86.
    X86_64,
}

/// The architecture that goes by `name`, if releases are built for it.
pub open spec fn arch_named(name: Seq<char>) -> Option<Arch> {
    if name == "x86"@ {
        Some(Arch::X86)
    } else if name == "x86_64"@ {
        Some(Arch::X86_64)
    } else {
        None
    }
}

impl Arch {
    /// The architecture that goes by `name`, as the standard library names the
    /// host's, if releases are built for it.
    pub fn from_name(name: &str) -> (arch: Option<Arch>)
        ensures
            arch == arch_named(name@),
    {
        if *name == *"x86" {
            Some(Arch::X86)
        } else if *name == *"x86_64" {
            Some(Arch::X86_64)
        } else {
            None
        }
    }
}

} // verus!
