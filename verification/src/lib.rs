//! Verified core of posish's lazily resolved vDSO entry points: the callee
//! cache, the `clock_gettime` system-call fallback, the vDSO symbol table and
//! the `userfaultfd` flag set.
pub mod callee;
pub mod clock;
pub mod userfaultfd;
pub mod vdso_symbols;
