use posish::vdso_symbols::{clock_gettime_symbol, syscall_symbol, TargetArch};

#[test]
fn x86_64_clock_gettime_symbol() {
    let s = clock_gettime_symbol(TargetArch::X86_64);
    assert_eq!((s.version, s.name), ("LINUX_2.6", "__vdso_clock_gettime"));
}

#[test]
fn aarch64_clock_gettime_symbol() {
    let s = clock_gettime_symbol(TargetArch::Aarch64);
    assert_eq!((s.version, s.name), ("LINUX_2.6.39)", "__kernel_clock_gettime"));
}

#[test]
fn x86_clock_gettime_symbol() {
    let s = clock_gettime_symbol(TargetArch::X86);
    assert_eq!((s.version, s.name), ("LINUX_2.6", "__vdso_clock_gettime64"));
}

#[test]
fn only_x86_has_a_syscall_symbol() {
    let s = syscall_symbol(TargetArch::X86).unwrap();
    assert_eq!((s.version, s.name), ("LINUX_2.5", "__kernel_vsyscall"));
    assert!(syscall_symbol(TargetArch::X86_64).is_none());
    assert!(syscall_symbol(TargetArch::Aarch64).is_none());
}
