//! The vDSO symbols that initialization looks up on each architecture.
use vstd::prelude::*;

verus! {

/// The architectures whose vDSO provides the entry points used here.
#[derive(Clone, Copy, Debug, PartialEq, Eq, Structural)]
pub enum TargetArch {
    X86_64,
    Aarch64,
    X86,
}

/// A versioned vDSO symbol: the symbol version and the symbol name.
#[derive(Clone, Copy, Debug)]
pub struct VdsoSymbol {
    pub version: &'static str,
    pub name: &'static str,
}

/// The `clock_gettime` entry point of the vDSO of `arch`. The aarch64 version
/// is written `LINUX_2.6.39)`, closing parenthesis included, so a lookup of
/// it in a real aarch64 vDSO (whose version is `LINUX_2.6.39`) finds nothing
/// and initialization then fails its check that the slot is set.
pub fn clock_gettime_symbol(arch: TargetArch) -> (symbol: VdsoSymbol)
    ensures
        arch == TargetArch::X86_64 ==> symbol.version@ == "LINUX_2.6"@ && symbol.name@
            == "__vdso_clock_gettime"@,
        arch == TargetArch::Aarch64 ==> symbol.version@ == "LINUX_2.6.39)"@ && symbol.name@
            == "__kernel_clock_gettime"@,
        arch == TargetArch::X86 ==> symbol.version@ == "LINUX_2.6"@ && symbol.name@
            == "__vdso_clock_gettime64"@,
{
    match arch {
        TargetArch::X86_64 => VdsoSymbol { version: "LINUX_2.6", name: "__vdso_clock_gettime" },
        TargetArch::Aarch64 => VdsoSymbol {
            version: "LINUX_2.6.39)",
            name: "__kernel_clock_gettime",
        },
        TargetArch::X86 => VdsoSymbol { version: "LINUX_2.6", name: "__vdso_clock_gettime64" },
    }
}

/// The system-call entry point of the vDSO of `arch`: only 32-bit x86 makes
/// its system calls through the vDSO (`__kernel_vsyscall`).
pub fn syscall_symbol(arch: TargetArch) -> (symbol: Option<VdsoSymbol>)
    ensures
        arch == TargetArch::X86 <==> symbol is Some,
        symbol matches Some(s) ==> s.version@ == "LINUX_2.5"@ && s.name@ == "__kernel_vsyscall"@,
{
    match arch {
        TargetArch::X86 => Some(VdsoSymbol { version: "LINUX_2.5", name: "__kernel_vsyscall" }),
        _ => None,
    }
}

} // verus!
