//! The platforms that a package is built for.
use vstd::prelude::*;

verus! {

/// A processor architecture.
#[derive(Clone, Copy, Debug, PartialEq, Eq, Hash, Structural)]
pub enum TargetArch {
    AArch64,
    X86_64,
}

/// An operating system.
#[derive(Clone, Copy, Debug, PartialEq, Eq, Hash, Structural)]
pub enum TargetOs {
    Darwin,
    Linux,
    Win32,
}

/// A platform that the compiler builds for directly.
#[derive(Clone, Copy, Debug, PartialEq, Eq, Hash, Structural)]
pub struct PrimitiveTarget {
    pub arch: TargetArch,
    pub os: TargetOs,
}

/// The name of a target, as its build directory is named.
pub open spec fn target_name(t: PrimitiveTarget) -> Seq<char> {
    match t.os {
        TargetOs::Darwin => match t.arch {
            TargetArch::AArch64 => "aarch64-apple-darwin"@,
            TargetArch::X86_64 => "x86_64-apple-darwin"@,
        },
        TargetOs::Linux => match t.arch {
            TargetArch::AArch64 => "aarch64-unknown-linux-gnu"@,
            TargetArch::X86_64 => "x86_64-unknown-linux-gnu"@,
        },
        TargetOs::Win32 => match t.arch {
            TargetArch::AArch64 => "aarch64-pc-windows-msvc"@,
            TargetArch::X86_64 => "x86_64-pc-windows-msvc"@,
        },
    }
}

/// Every platform that the compiler builds for, each once.
pub open spec fn all_primitive_targets() -> Seq<PrimitiveTarget> {
    seq![
        PrimitiveTarget { arch: TargetArch::AArch64, os: TargetOs::Darwin },
        PrimitiveTarget { arch: TargetArch::X86_64, os: TargetOs::Darwin },
        PrimitiveTarget { arch: TargetArch::AArch64, os: TargetOs::Linux },
        PrimitiveTarget { arch: TargetArch::X86_64, os: TargetOs::Linux },
        PrimitiveTarget { arch: TargetArch::AArch64, os: TargetOs::Win32 },
        PrimitiveTarget { arch: TargetArch::X86_64, os: TargetOs::Win32 },
    ]
}

/// The list of every target holds each target, and each once.
pub proof fn lemma_all_primitive_targets()
    ensures
        forall|t: PrimitiveTarget| #[trigger] all_primitive_targets().contains(t),
        forall|i: int, j: int|
            0 <= i < j < all_primitive_targets().len() ==> #[trigger] all_primitive_targets()[i]
                != #[trigger] all_primitive_targets()[j],
{
    let all = all_primitive_targets();
    assert forall|t: PrimitiveTarget| #[trigger] all.contains(t) by {
        let k: int = match (t.arch, t.os) {
            (TargetArch::AArch64, TargetOs::Darwin) => 0,
            (TargetArch::X86_64, TargetOs::Darwin) => 1,
            (TargetArch::AArch64, TargetOs::Linux) => 2,
            (TargetArch::X86_64, TargetOs::Linux) => 3,
            (TargetArch::AArch64, TargetOs::Win32) => 4,
            (TargetArch::X86_64, TargetOs::Win32) => 5,
        };
        assert(all[k] == t);
    }
}

impl PrimitiveTarget {
    /// Every platform that the compiler builds for.
    pub fn all() -> (r: Vec<PrimitiveTarget>)
        ensures
            r@ == all_primitive_targets(),
    {
        let mut r: Vec<PrimitiveTarget> = Vec::new();
        r.push(PrimitiveTarget { arch: TargetArch::AArch64, os: TargetOs::Darwin });
        r.push(PrimitiveTarget { arch: TargetArch::X86_64, os: TargetOs::Darwin });
        r.push(PrimitiveTarget { arch: TargetArch::AArch64, os: TargetOs::Linux });
        r.push(PrimitiveTarget { arch: TargetArch::X86_64, os: TargetOs::Linux });
        r.push(PrimitiveTarget { arch: TargetArch::AArch64, os: TargetOs::Win32 });
        r.push(PrimitiveTarget { arch: TargetArch::X86_64, os: TargetOs::Win32 });
        assert(r@ =~= all_primitive_targets());
        r
    }

    /// The name of the target.
    pub fn name(&self) -> (r: &'static str)
        ensures
            r@ == target_name(*self),
    {
        match self.os {
            TargetOs::Darwin => match self.arch {
                TargetArch::AArch64 => "aarch64-apple-darwin",
                TargetArch::X86_64 => "x86_64-apple-darwin",
            },
            TargetOs::Linux => match self.arch {
                TargetArch::AArch64 => "aarch64-unknown-linux-gnu",
                TargetArch::X86_64 => "x86_64-unknown-linux-gnu",
            },
            TargetOs::Win32 => match self.arch {
                TargetArch::AArch64 => "aarch64-pc-windows-msvc",
                TargetArch::X86_64 => "x86_64-pc-windows-msvc",
            },
        }
    }

    pub fn new(arch: TargetArch, os: TargetOs) -> (r: PrimitiveTarget)
        ensures
            r.arch == arch,
            r.os == os,
    {
        PrimitiveTarget { arch, os }
    }

    pub fn arch(&self) -> (r: TargetArch)
        ensures
            r == self.arch,
    {
        self.arch
    }

    pub fn os(&self) -> (r: TargetOs)
        ensures
            r == self.os,
    {
        self.os
    }
}

/// A platform that a binary of a package is for.
#[derive(Clone, Copy, Debug, PartialEq, Eq, Hash, Structural)]
pub enum Target {
    Primitive(PrimitiveTarget),
}

impl Target {
    /// Whether two targets are the same one.
    pub fn same(&self, other: &Target) -> (r: bool)
        ensures
            r == (*self == *other),
    {
        match (self, other) {
            (Target::Primitive(a), Target::Primitive(b)) => a.arch == b.arch && a.os == b.os,
        }
    }
}

} // verus!
