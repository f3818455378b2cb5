//! The CPU architectures that build files are selected by.
use vstd::prelude::*;
use crate::paths::same_text;

verus! {

/// A CPU architecture, named in the manifests as the host names it.
#[derive(Clone, Copy, Debug, PartialEq, Eq, Structural)]
pub enum CpuType {
    X86,
    X86_64,
    Arm,
    Aarch64,
    M68k,
    Mips,
    Mips64,
    Powerpc,
    Powerpc64,
    Riscv64,
    S390x,
    Sparc64,
}

/// The name under which an architecture appears as a key of a build-file map.
pub open spec fn cpu_name(c: CpuType) -> Seq<char> {
    match c {
        CpuType::X86 => "x86"@,
        CpuType::X86_64 => "x86_64"@,
        CpuType::Arm => "arm"@,
        CpuType::Aarch64 => "aarch64"@,
        CpuType::M68k => "m68k"@,
        CpuType::Mips => "mips"@,
        CpuType::Mips64 => "mips64"@,
        CpuType::Powerpc => "powerpc"@,
        CpuType::Powerpc64 => "powerpc64"@,
        CpuType::Riscv64 => "riscv64"@,
        CpuType::S390x => "s390x"@,
        CpuType::Sparc64 => "sparc64"@,
    }
}

impl CpuType {
    /// The architecture that the host name `arch` stands for, or `None` for a
    /// host outside the supported set.
    pub fn from_arch(arch: &str) -> (r: Option<CpuType>)
        ensures
            match r {
                Some(c) => cpu_name(c) == arch@,
                None => forall|c: CpuType| cpu_name(c) != arch@,
            },
    {
        if same_text(arch, "x86") {
            Some(CpuType::X86)
        } else if same_text(arch, "x86_64") {
            Some(CpuType::X86_64)
        } else if same_text(arch, "arm") {
            Some(CpuType::Arm)
        } else if same_text(arch, "aarch64") {
            Some(CpuType::Aarch64)
        } else if same_text(arch, "m68k") {
            Some(CpuType::M68k)
        } else if same_text(arch, "mips") {
            Some(CpuType::Mips)
        } else if same_text(arch, "mips64") {
            Some(CpuType::Mips64)
        } else if same_text(arch, "powerpc") {
            Some(CpuType::Powerpc)
        } else if same_text(arch, "powerpc64") {
            Some(CpuType::Powerpc64)
        } else if same_text(arch, "riscv64") {
            Some(CpuType::Riscv64)
        } else if same_text(arch, "s390x") {
            Some(CpuType::S390x)
        } else if same_text(arch, "sparc64") {
            Some(CpuType::Sparc64)
        } else {
            None
        }
    }

    /// The name of the architecture.
    pub fn to_string(self) -> (r: String)
        ensures
            r@ == cpu_name(self),
    {
        match self {
            CpuType::X86 => "x86".to_owned(),
            CpuType::X86_64 => "x86_64".to_owned(),
            CpuType::Arm => "arm".to_owned(),
            CpuType::Aarch64 => "aarch64".to_owned(),
            CpuType::M68k => "m68k".to_owned(),
            CpuType::Mips => "mips".to_owned(),
            CpuType::Mips64 => "mips64".to_owned(),
            CpuType::Powerpc => "powerpc".to_owned(),
            CpuType::Powerpc64 => "powerpc64".to_owned(),
            CpuType::Riscv64 => "riscv64".to_owned(),
            CpuType::S390x => "s390x".to_owned(),
            CpuType::Sparc64 => "sparc64".to_owned(),
        }
    }
}

} // verus!
