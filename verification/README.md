# posish (vDSO entry points, verified core)

`src/` is the verified library: the cache slots of lazily resolved entry
points (`callee`), what a `clock_gettime` system call's raw result becomes and
the 32-bit `ENOSYS` fallback (`clock`), the vDSO symbols looked up per
architecture (`vdso_symbols`) and the `userfaultfd` flag set (`userfaultfd`).

`app/` holds what performs the work: the global atomic slots, the vDSO lookup,
the system calls, `userfaultfd(flags)` and the large-file `libc` aliases.
