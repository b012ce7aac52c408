//! Slots that cache the address of a lazily resolved entry point.
//!
//! A slot holds `0` until it is initialized; afterwards it holds the address
//! of the function to call (a vDSO symbol, or a fallback that performs the
//! system call directly).
use vstd::prelude::*;

verus! {

/// The callee cached in a slot, if the slot has been initialized: the value
/// `0` stands for "not yet resolved", any other value is an address.
pub open spec fn cached_callee_spec(slot: usize) -> Option<usize> {
    if slot == 0 {
        None
    } else {
        Some(slot)
    }
}

/// The slot after the fallback is installed: only an unset slot takes the
/// fallback, a slot that already holds a callee keeps it.
pub open spec fn slot_after_fallback_spec(slot: usize, fallback: usize) -> usize {
    if slot == 0 {
        fallback
    } else {
        slot
    }
}

/// The slot after a full initialization: the fallback is installed, then a
/// symbol found in the vDSO, if there is a vDSO, replaces whatever is there.
pub open spec fn slot_after_init_spec(slot: usize, fallback: usize, vdso_symbol: Option<usize>) -> usize {
    match vdso_symbol {
        Some(address) => address,
        None => slot_after_fallback_spec(slot, fallback),
    }
}

/// Reads a slot as an optional callee (`None` means the slot must be
/// initialized before the call).
pub fn cached_callee(slot: usize) -> (callee: Option<usize>)
    ensures
        callee == cached_callee_spec(slot),
        slot == 0 ==> callee is None,
        slot != 0 ==> callee == Some(slot),
{
    if slot == 0 {
        None
    } else {
        Some(slot)
    }
}

/// The value a slot must hold after the fallback is installed into it, given
/// the value it holds now.
pub fn slot_after_fallback(slot: usize, fallback: usize) -> (next: usize)
    ensures
        next == slot_after_fallback_spec(slot, fallback),
        slot == 0 ==> next == fallback,
        slot != 0 ==> next == slot,
{
    if slot == 0 {
        fallback
    } else {
        slot
    }
}

/// The value a slot must hold after initialization, given the value it held
/// before, the fallback and the vDSO symbol found (if there is a vDSO). The
/// symbol is stored as found, even when it is null.
pub fn slot_after_lookup(slot: usize, fallback: usize, vdso_symbol: Option<usize>) -> (next: usize)
    ensures
        next == slot_after_init_spec(slot, fallback, vdso_symbol),
        vdso_symbol matches Some(address) ==> next == address,
        vdso_symbol is None && slot == 0 ==> next == fallback,
        vdso_symbol is None && slot != 0 ==> next == slot,
{
    match vdso_symbol {
        Some(address) => address,
        None => slot_after_fallback(slot, fallback),
    }
}

/// The value the `clock_gettime` slot holds after initialization, or `None`
/// when the vDSO gave a null symbol (initialization then fails its check that
/// the slot is set). A value given is never zero once the fallback is
/// non-null, and it is the vDSO symbol, the fallback or the slot's old value.
pub fn slot_after_init(slot: usize, fallback: usize, vdso_symbol: Option<usize>) -> (next: Option<usize>)
    ensures
        vdso_symbol == Some(0usize) ==> next is None,
        vdso_symbol != Some(0usize) ==> next == Some(slot_after_init_spec(slot, fallback, vdso_symbol)),
        fallback != 0 && next is Some ==> next->0 != 0,
        next matches Some(value) ==> value == fallback || value == slot || vdso_symbol == Some(value),
        vdso_symbol is Some && vdso_symbol->0 != 0 ==> next == vdso_symbol,
        vdso_symbol is None && slot == 0 ==> next == Some(fallback),
        vdso_symbol is None && slot != 0 ==> next == Some(slot),
{
    match vdso_symbol {
        Some(address) => {
            if address == 0 {
                None
            } else {
                Some(address)
            }
        },
        None => Some(slot_after_fallback(slot, fallback)),
    }
}

/// With a vDSO, initialization leaves the slot holding the symbol found,
/// whatever the slot and the fallback were; without one, an unset slot takes
/// the fallback and a set slot keeps its callee.
pub proof fn lemma_vdso_symbol_wins(slot: usize, fallback: usize, address: usize)
    ensures
        slot_after_init_spec(slot, fallback, Some(address)) == address,
        slot_after_init_spec(0, fallback, None) == fallback,
        slot != 0 ==> slot_after_init_spec(slot, fallback, None) == slot,
        slot_after_fallback_spec(0, fallback) == fallback,
        cached_callee_spec(0) is None,
        slot != 0 ==> cached_callee_spec(slot) == Some(slot),
{
}

/// Initializing twice leaves the slot as the first initialization left it,
/// when both find the same vDSO symbol (or both find no vDSO).
pub proof fn lemma_init_idempotent(slot: usize, fallback: usize, vdso_symbol: Option<usize>)
    ensures
        slot_after_init_spec(slot_after_init_spec(slot, fallback, vdso_symbol), fallback, vdso_symbol)
            == slot_after_init_spec(slot, fallback, vdso_symbol),
{
}

/// Initialization always leaves a slot resolved: with a non-null fallback and
/// a non-null vDSO symbol (when there is a vDSO), the slot holds a callee
/// afterwards, and reading it gives that callee.
pub proof fn lemma_init_resolves_slot(slot: usize, fallback: usize, vdso_symbol: Option<usize>)
    requires
        fallback != 0,
        vdso_symbol matches Some(address) ==> address != 0,
    ensures
        slot_after_init_spec(slot, fallback, vdso_symbol) != 0,
        cached_callee_spec(slot_after_init_spec(slot, fallback, vdso_symbol))
            == Some(slot_after_init_spec(slot, fallback, vdso_symbol)),
{
}

/// Installing the fallback never replaces a callee that is already cached,
/// so installing a second fallback changes nothing.
pub proof fn lemma_fallback_keeps_resolved(slot: usize, fallback: usize, other: usize)
    requires
        fallback != 0,
    ensures
        slot != 0 ==> slot_after_fallback_spec(slot, fallback) == slot,
        slot_after_fallback_spec(slot_after_fallback_spec(slot, fallback), other)
            == slot_after_fallback_spec(slot, fallback),
{
}

/// A slot is read as unresolved exactly when it holds zero.
pub proof fn lemma_cached_callee_unset(slot: usize)
    ensures
        cached_callee_spec(slot) is None <==> slot == 0,
        cached_callee_spec(slot) matches Some(address) ==> address == slot,
{
}

} // verus!
