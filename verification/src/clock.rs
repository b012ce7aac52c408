//! The decisions of `clock_gettime` when no vDSO entry point is used: the
//! system call's raw return value becomes the C `int` that the entry point
//! returns, and on 32-bit targets a kernel without `clock_gettime64`
//! (`ENOSYS`) is served by the old `clock_gettime`, whose 32-bit result is
//! widened.
use vstd::prelude::*;

verus! {

/// A `struct timespec` with 64-bit fields, as the kernel's `__kernel_timespec`.
#[derive(Clone, Copy, Debug, PartialEq, Eq, Structural)]
pub struct Timespec {
    pub tv_sec: i64,
    pub tv_nsec: i64,
}

/// The old 32-bit `struct timespec` of 32-bit targets (`c_long` fields).
#[derive(Clone, Copy, Debug, PartialEq, Eq, Structural)]
pub struct OldTimespec {
    pub tv_sec: i32,
    pub tv_nsec: i32,
}

/// What the 32-bit entry point does after `clock_gettime64` returned.
#[derive(Clone, Copy, Debug, PartialEq, Eq, Structural)]
pub enum Gettime64Outcome {
    /// The call is over; the entry point returns this value.
    Finished(i32),
    /// The kernel lacks `clock_gettime64`: call the old `clock_gettime`.
    RetryWithOldSyscall,
}

/// The number `2^32`.
pub open spec fn two_pow_32() -> int {
    0x1_0000_0000
}

/// The C `int` that a raw system-call return value becomes: its low 32 bits
/// read as a two's-complement number.
pub open spec fn c_int_of(raw: usize) -> int {
    let low = raw as int % two_pow_32();
    if low < 0x8000_0000 {
        low
    } else {
        low - two_pow_32()
    }
}

/// The raw return value by which a system call reports error number `errno`:
/// `-errno` as a machine word.
pub open spec fn raw_error(errno: int) -> int {
    usize::MAX + 1 - errno
}

/// Whether `errno` lies in the range of error numbers that Linux reports
/// through a raw system-call result.
pub open spec fn is_errno(errno: int) -> bool {
    1 <= errno <= 4095
}

/// A value that linux-raw-sys gives `ENOSYS` on some target: 38 on most,
/// 89 on mips, 90 on sparc.
pub open spec fn possible_enosys(errno: int) -> bool {
    errno == 38 || errno == 89 || errno == 90
}

/// `linux_raw_sys::errno::ENOSYS`, "function not implemented". linux-raw-sys
/// picks its value by target architecture (38 on most, 89 on mips, 90 on
/// sparc); the contract states that it is one of these, each an error number
/// in the range that raw system-call results use. Which one is not stated.
#[verifier::external_body]
fn enosys() -> (errno: u32)
    ensures
        is_errno(errno as int),
        possible_enosys(errno as int),
{
    linux_raw_sys::errno::ENOSYS
}

/// Widens an old 32-bit `timespec` into the 64-bit one (`tv_sec.into()`,
/// `tv_nsec.into()`).
pub fn widen_timespec(old: OldTimespec) -> (wide: Timespec)
    ensures
        wide.tv_sec == old.tv_sec,
        wide.tv_nsec == old.tv_nsec,
{
    Timespec { tv_sec: old.tv_sec as i64, tv_nsec: old.tv_nsec as i64 }
}

/// The C `int` returned for a raw system-call result (`r0 as c_int`).
pub fn raw_to_c_int(raw: usize) -> (ret: i32)
    ensures
        ret == c_int_of(raw),
{
    let wide: u64 = raw as u64;
    let low: u64 = wide & 0xffff_ffff;
    assert(low == wide % 0x1_0000_0000) by (bit_vector)
        requires
            low == wide & 0xffff_ffff,
    ;
    assert(raw as int % two_pow_32() == wide as int % 0x1_0000_0000);
    if low < 0x8000_0000 {
        low as i32
    } else {
        let below: u64 = 0xffff_ffff - low;
        let ret: i32 = -(below as i32) - 1;
        ret
    }
}

/// The decision after `clock_gettime64` returned `raw`, on a target whose
/// `ENOSYS` is `enosys_errno`.
pub open spec fn gettime64_decision(raw: usize, enosys_errno: int) -> Gettime64Outcome {
    if raw == raw_error(enosys_errno) {
        Gettime64Outcome::RetryWithOldSyscall
    } else {
        Gettime64Outcome::Finished(c_int_of(raw) as i32)
    }
}

/// The old `clock_gettime` is tried exactly when `clock_gettime64` failed with
/// `ENOSYS`: for no other raw result, and in particular for no other error.
pub proof fn lemma_retry_only_on_enosys(raw: usize, enosys_errno: int, errno: int)
    requires
        is_errno(enosys_errno),
        is_errno(errno),
    ensures
        gettime64_decision(raw, enosys_errno) is RetryWithOldSyscall <==> raw as int == usize::MAX
            + 1 - enosys_errno,
        raw as int == usize::MAX + 1 - errno && errno != enosys_errno ==> gettime64_decision(
            raw,
            enosys_errno,
        ) == Gettime64Outcome::Finished((-errno) as i32),
        gettime64_decision(0, enosys_errno) == Gettime64Outcome::Finished(0),
        (raw as int) < usize::MAX - 4094 ==> gettime64_decision(raw, enosys_errno)
            is Finished,
{
    if raw as int == usize::MAX + 1 - errno {
        lemma_error_is_negated_errno(errno);
    }
}

/// What the 32-bit entry point does once `clock_gettime64` has returned
/// `raw`, where `enosys_errno` is the target's `ENOSYS`: a kernel that lacks
/// the call (`-ENOSYS`) is asked again with the old `clock_gettime`; any other
/// result is final and returned as a C `int`.
pub fn after_clock_gettime64(raw: usize, enosys_errno: u32) -> (outcome: Gettime64Outcome)
    requires
        is_errno(enosys_errno as int),
    ensures
        raw == raw_error(enosys_errno as int) ==> outcome == Gettime64Outcome::RetryWithOldSyscall,
        raw != raw_error(enosys_errno as int) ==> outcome == Gettime64Outcome::Finished(
            c_int_of(raw) as i32,
        ),
        forall|errno: int|
            is_errno(errno) && errno != enosys_errno && raw == #[trigger] raw_error(errno)
                ==> outcome == Gettime64Outcome::Finished((-errno) as i32),
        outcome == gettime64_decision(raw, enosys_errno as int),
{
    proof {
        assert forall|errno: int|
            is_errno(errno) && raw == #[trigger] raw_error(errno) implies c_int_of(raw) == -errno by {
            lemma_error_is_negated_errno(errno);
        }
    }
    if raw == usize::MAX - (enosys_errno as usize - 1) {
        Gettime64Outcome::RetryWithOldSyscall
    } else {
        Gettime64Outcome::Finished(raw_to_c_int(raw))
    }
}

/// What the 32-bit entry point of this target does once `clock_gettime64` has
/// returned `raw`: it reads the target's `ENOSYS` and decides as
/// [`after_clock_gettime64`]. Whatever that number is, a retry happens only
/// for a raw error result, and a final result is `raw` as a C `int`.
pub fn clock_gettime64_outcome(raw: usize) -> (outcome: Gettime64Outcome)
    ensures
        outcome is RetryWithOldSyscall ==> exists|errno: int|
            is_errno(errno) && raw == #[trigger] raw_error(errno),
        outcome matches Gettime64Outcome::Finished(ret) ==> ret == c_int_of(raw),
        raw < usize::MAX - 4094 ==> outcome == Gettime64Outcome::Finished(c_int_of(raw) as i32),
        outcome is RetryWithOldSyscall ==> raw == raw_error(38) || raw == raw_error(89) || raw
            == raw_error(90),
        raw != raw_error(38) && raw != raw_error(89) && raw != raw_error(90) ==> outcome
            == Gettime64Outcome::Finished(c_int_of(raw) as i32),
        forall|errno: int|
            is_errno(errno) && !possible_enosys(errno) && raw == #[trigger] raw_error(errno)
                ==> outcome == Gettime64Outcome::Finished((-errno) as i32),
        exists|enosys_errno: int|
            possible_enosys(enosys_errno) && outcome == #[trigger] gettime64_decision(
                raw,
                enosys_errno,
            ),
{
    let errno: u32 = enosys();
    let outcome = after_clock_gettime64(raw, errno);
    assert(outcome == gettime64_decision(raw, errno as int));
    assert(outcome is RetryWithOldSyscall ==> raw == raw_error(errno as int));
    outcome
}

/// What the 32-bit entry point does once the old `clock_gettime` has
/// returned `raw`, having filled `old` when it succeeded: it returns `raw` as
/// a C `int`, and on success (`raw == 0`) stores the widened time in the
/// caller's buffer; on failure the buffer is left as it was.
pub fn after_old_clock_gettime(raw: usize, old: OldTimespec) -> (outcome: (i32, Option<Timespec>))
    ensures
        outcome.0 == c_int_of(raw),
        raw == 0 ==> outcome.1 == Some(widen_spec(old)),
        raw != 0 ==> outcome.1 is None,
{
    let ret = raw_to_c_int(raw);
    if raw == 0 {
        (ret, Some(widen_timespec(old)))
    } else {
        (ret, None)
    }
}

/// The 64-bit `timespec` holding the same time as an old 32-bit one.
pub open spec fn widen_spec(old: OldTimespec) -> Timespec {
    Timespec { tv_sec: old.tv_sec as i64, tv_nsec: old.tv_nsec as i64 }
}

/// A successful system call (raw result 0) makes the entry point return 0.
pub proof fn lemma_success_is_zero()
    ensures
        c_int_of(0) == 0,
{
}

/// A system call that fails with error number `errno` (1 to 4095, the range
/// Linux reserves for errors) makes the entry point return `-errno`, on
/// 32-bit and 64-bit targets alike.
pub proof fn lemma_error_is_negated_errno(errno: int)
    requires
        1 <= errno <= 4095,
    ensures
        c_int_of(raw_error(errno) as usize) == -errno,
{
    assert(usize::MAX == 0xffff_ffff || usize::MAX == 0xffff_ffff_ffff_ffff);
    if usize::MAX == 0xffff_ffff {
        assert((0x1_0000_0000 - errno) % 0x1_0000_0000 == 0x1_0000_0000 - errno);
    } else {
        assert((0x1_0000_0000_0000_0000 - errno) % 0x1_0000_0000 == 0x1_0000_0000 - errno);
    }
}

/// Small non-negative results (such as file descriptors) keep their value.
pub proof fn lemma_small_result_kept(raw: usize)
    requires
        raw <= 0x7fff_ffff,
    ensures
        c_int_of(raw) == raw,
{
}

/// Widening keeps the time: the seconds and nanoseconds are the same numbers.
pub proof fn lemma_widen_keeps_time(old: OldTimespec)
    ensures
        widen_spec(old).tv_sec == old.tv_sec,
        widen_spec(old).tv_nsec == old.tv_nsec,
{
}

} // verus!
