//! The flag set that `userfaultfd(flags)` takes.
//!
//! The flags are the target's `O_CLOEXEC` and `O_NONBLOCK`, whose values
//! linux-raw-sys picks by target architecture; the contracts below hold for
//! each of those values, and those that depend on them speak of the mask of
//! both flags that was actually read.
use vstd::prelude::*;

verus! {

/// A value that linux-raw-sys gives `O_CLOEXEC` on some target.
pub open spec fn possible_cloexec(bits: u32) -> bool {
    bits == 0x80000 || bits == 0x400000
}

/// A value that linux-raw-sys gives `O_NONBLOCK` on some target.
pub open spec fn possible_nonblock(bits: u32) -> bool {
    bits == 0x800 || bits == 0x80 || bits == 0x4000
}

/// Every bit that is a flag on some target.
pub open spec fn possible_flag_bits() -> u32 {
    0x484880
}

/// `mask` is the set of both flags on some target.
pub open spec fn is_flag_mask(mask: u32) -> bool {
    exists|cloexec: u32, nonblock: u32|
        #![trigger possible_cloexec(cloexec), possible_nonblock(nonblock)]
        possible_cloexec(cloexec) && possible_nonblock(nonblock) && mask == cloexec | nonblock
}

/// `linux_raw_sys::general::O_CLOEXEC`: `0o2000000` on every target of
/// linux-raw-sys but sparc, where it is `0o20000000`.
#[verifier::external_body]
fn o_cloexec() -> (bits: u32)
    ensures
        possible_cloexec(bits),
{
    linux_raw_sys::general::O_CLOEXEC
}

/// `linux_raw_sys::general::O_NONBLOCK`: `0o4000` on most targets of
/// linux-raw-sys, `0o200` on mips and `0o40000` on sparc.
#[verifier::external_body]
fn o_nonblock() -> (bits: u32)
    ensures
        possible_nonblock(bits),
{
    linux_raw_sys::general::O_NONBLOCK
}

/// The flag values of every target are single bits, the two flags never share
/// a bit, and both lie within the possible flag bits.
pub proof fn lemma_flags_disjoint(cloexec: u32, nonblock: u32)
    requires
        possible_cloexec(cloexec),
        possible_nonblock(nonblock),
    ensures
        cloexec & nonblock == 0,
        cloexec != 0,
        nonblock != 0,
        is_flag_mask(cloexec | nonblock),
        (cloexec | nonblock) & !possible_flag_bits() == 0,
{
    assert(cloexec & nonblock == 0 && (cloexec | nonblock) & !0x484880u32 == 0) by (bit_vector)
        requires
            cloexec == 0x80000u32 || cloexec == 0x400000u32,
            nonblock == 0x800u32 || nonblock == 0x80u32 || nonblock == 0x4000u32,
    ;
}

/// A flag mask of any target lies within the possible flag bits.
pub proof fn lemma_flag_mask_within_possible(mask: u32)
    requires
        is_flag_mask(mask),
    ensures
        mask & !possible_flag_bits() == 0,
{
    let (cloexec, nonblock) = choose|cloexec: u32, nonblock: u32|
        #![trigger possible_cloexec(cloexec), possible_nonblock(nonblock)]
        possible_cloexec(cloexec) && possible_nonblock(nonblock) && mask == cloexec | nonblock;
    lemma_flags_disjoint(cloexec, nonblock);
}

/// Flags for `userfaultfd`: `CLOEXEC` and `NONBLOCK`.
#[derive(Clone, Copy, Debug, PartialEq, Eq, Structural)]
pub struct UserfaultfdFlags {
    bits: u32,
}

impl View for UserfaultfdFlags {
    type V = u32;

    closed spec fn view(&self) -> u32 {
        self.bits
    }
}

impl UserfaultfdFlags {
    /// A flag set holds bits that are flags (on some target) only.
    #[verifier::type_invariant]
    spec fn holds_flag_bits_only(self) -> bool {
        self.bits & !0x484880u32 == 0
    }

    /// The empty set.
    pub fn empty() -> (flags: Self)
        ensures
            flags@ == 0,
    {
        assert(0u32 & !0x484880u32 == 0) by (bit_vector);
        UserfaultfdFlags { bits: 0 }
    }

    /// Both flags.
    pub fn all() -> (flags: Self)
        ensures
            is_flag_mask(flags@),
    {
        let cloexec: u32 = o_cloexec();
        let nonblock: u32 = o_nonblock();
        proof {
            lemma_flags_disjoint(cloexec, nonblock);
        }
        UserfaultfdFlags { bits: cloexec | nonblock }
    }

    /// `CLOEXEC`: close the descriptor on `exec` (`O_CLOEXEC`).
    pub fn cloexec() -> (flags: Self)
        ensures
            possible_cloexec(flags@),
    {
        let bits: u32 = o_cloexec();
        assert(bits & !0x484880u32 == 0) by (bit_vector)
            requires
                bits == 0x80000u32 || bits == 0x400000u32,
        ;
        UserfaultfdFlags { bits }
    }

    /// `NONBLOCK`: non-blocking reads (`O_NONBLOCK`).
    pub fn nonblock() -> (flags: Self)
        ensures
            possible_nonblock(flags@),
    {
        let bits: u32 = o_nonblock();
        assert(bits & !0x484880u32 == 0) by (bit_vector)
            requires
                bits == 0x800u32 || bits == 0x80u32 || bits == 0x4000u32,
        ;
        UserfaultfdFlags { bits }
    }

    /// The raw bits, as passed to the system call.
    pub fn bits(&self) -> (bits: u32)
        ensures
            bits == self@,
            bits & !possible_flag_bits() == 0,
    {
        proof {
            use_type_invariant(self);
        }
        self.bits
    }

    /// The flag set with exactly these bits, or `None` if `bits` holds a bit
    /// outside `all`, the set of both flags.
    pub fn from_bits_within(bits: u32, all: Self) -> (flags: Option<Self>)
        ensures
            flags is Some <==> bits & !all@ == 0,
            flags matches Some(f) ==> f@ == bits,
    {
        let mask: u32 = all.bits();
        if bits & !mask == 0 {
            assert(bits & !0x484880u32 == 0) by (bit_vector)
                requires
                    bits & !mask == 0,
                    mask & !0x484880u32 == 0,
            ;
            Some(UserfaultfdFlags { bits })
        } else {
            None
        }
    }

    /// The flag set made of the bits of `bits` that lie in `all`, the set of
    /// both flags; other bits are dropped.
    pub fn from_bits_truncate_within(bits: u32, all: Self) -> (flags: Self)
        ensures
            flags@ == bits & all@,
    {
        let mask: u32 = all.bits();
        let kept: u32 = bits & mask;
        assert(kept & !0x484880u32 == 0) by (bit_vector)
            requires
                kept == bits & mask,
                mask & !0x484880u32 == 0,
        ;
        UserfaultfdFlags { bits: kept }
    }

    /// The flag set with exactly these bits, or `None` if `bits` holds a bit
    /// that is not a flag of this target.
    pub fn from_bits(bits: u32) -> (flags: Option<Self>)
        ensures
            exists|mask: u32| #[trigger]
                is_flag_mask(mask) && (flags is Some <==> bits & !mask == 0),
            flags matches Some(f) ==> f@ == bits,
            bits & !possible_flag_bits() != 0 ==> flags is None,
            bits == 0 ==> flags is Some,
    {
        let all = Self::all();
        let mask: u32 = all.bits();
        let flags = Self::from_bits_within(bits, all);
        assert(bits & !mask == 0 ==> bits & !0x484880u32 == 0) by (bit_vector)
            requires
                mask & !0x484880u32 == 0,
        ;
        assert(bits == 0 ==> bits & !mask == 0) by (bit_vector);
        flags
    }

    /// The flag set made of the flag bits of `bits`; other bits are dropped.
    pub fn from_bits_truncate(bits: u32) -> (flags: Self)
        ensures
            exists|mask: u32| #[trigger] is_flag_mask(mask) && flags@ == bits & mask,
    {
        let all = Self::all();
        Self::from_bits_truncate_within(bits, all)
    }

    /// Whether no flag is set.
    pub fn is_empty(&self) -> (empty: bool)
        ensures
            empty == (self@ == 0),
    {
        self.bits == 0
    }

    /// Whether every flag of `other` is set in `self`.
    pub fn contains(&self, other: Self) -> (contained: bool)
        ensures
            contained == (self@ & other@ == other@),
    {
        self.bits & other.bits == other.bits
    }

    /// The flags set in `self` or in `other`.
    pub fn union(self, other: Self) -> (flags: Self)
        ensures
            flags@ == self@ | other@,
    {
        proof {
            use_type_invariant(&self);
            use_type_invariant(&other);
            lemma_union_and_removal_keep_flag_bits(self.bits, other.bits, 0x484880u32);
        }
        let bits: u32 = self.bits | other.bits;
        UserfaultfdFlags { bits }
    }

    /// Sets the flags of `other`.
    pub fn insert(&mut self, other: Self)
        ensures
            final(self)@ == old(self)@ | other@,
    {
        proof {
            use_type_invariant(&*self);
            use_type_invariant(&other);
            lemma_union_and_removal_keep_flag_bits(self.bits, other.bits, 0x484880u32);
        }
        self.bits = self.bits | other.bits;
    }

    /// Clears the flags of `other`.
    pub fn remove(&mut self, other: Self)
        ensures
            final(self)@ == old(self)@ & !other@,
    {
        proof {
            use_type_invariant(&*self);
            use_type_invariant(&other);
            lemma_union_and_removal_keep_flag_bits(self.bits, other.bits, 0x484880u32);
        }
        self.bits = self.bits & !other.bits;
    }
}

/// After inserting `other`, a flag set contains `other` and everything it
/// contained before.
pub proof fn lemma_insert_contains(before: u32, other: u32, kept: u32)
    requires
        before & kept == kept,
    ensures
        (before | other) & other == other,
        (before | other) & kept == kept,
{
    assert((before | other) & other == other) by (bit_vector);
    assert((before | other) & kept == kept) by (bit_vector)
        requires
            before & kept == kept,
    ;
}

/// After removing `other`, a flag set shares no flag with `other`, and
/// removing what was just inserted gives back the flags outside `other`.
pub proof fn lemma_remove_clears(before: u32, other: u32)
    ensures
        (before & !other) & other == 0,
        (before | other) & !other == before & !other,
{
    assert((before & !other) & other == 0) by (bit_vector);
    assert((before | other) & !other == before & !other) by (bit_vector);
}

/// Union is commutative, associative and has the empty set as identity.
pub proof fn lemma_union_laws(a: u32, b: u32, c: u32)
    ensures
        a | b == b | a,
        (a | b) | c == a | (b | c),
        a | 0 == a,
{
    assert(a | b == b | a) by (bit_vector);
    assert((a | b) | c == a | (b | c)) by (bit_vector);
    assert(a | 0 == a) by (bit_vector);
}

/// Reading a flag set's bits back within a flag mask `mask` that holds them:
/// `from_bits_within` accepts them (`bits & !mask == 0`), and truncation to
/// `mask` keeps them unchanged.
pub proof fn lemma_round_trip_within(bits: u32, mask: u32)
    requires
        bits & !mask == 0,
    ensures
        bits & mask == bits,
{
    assert(bits & mask == bits) by (bit_vector)
        requires
            bits & !mask == 0,
    ;
}

/// Union and removal keep a pair of flag sets within a mask `mask` that holds
/// both of them.
pub proof fn lemma_union_and_removal_keep_flag_bits(a: u32, b: u32, mask: u32)
    requires
        a & !mask == 0,
        b & !mask == 0,
    ensures
        (a | b) & !mask == 0,
        (a & !b) & !mask == 0,
{
    assert((a | b) & !mask == 0) by (bit_vector)
        requires
            a & !mask == 0,
            b & !mask == 0,
    ;
    assert((a & !b) & !mask == 0) by (bit_vector)
        requires
            a & !mask == 0,
    ;
}

} // verus!
