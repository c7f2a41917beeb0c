//! Software breakpoints as word-level code patches.
//!
//! A breakpoint overwrites the low byte of the machine word at its address
//! with a one-byte trap opcode, remembering the byte it replaced. The
//! memory primitive of the tracing facility works on whole aligned words,
//! so every operation here is a read-modify-write on one word: the caller
//! reads the current word at the address, hands it in, and writes back the
//! word returned.

use vstd::prelude::*;

verus! {

/// One-byte trap instruction; executing it stops the inferior and notifies
/// the tracer.
pub const TRAP_OPCODE: u8 = 0xcc;

/// Mask keeping every byte of a word except the low one.
pub const HIGH_BYTES_MASK: u64 = 0xffff_ffff_ffff_ff00;

/// The low byte of a machine word: the byte a software breakpoint patches.
pub open spec fn low_byte_of(w: u64) -> u8 {
    (w & 0xff) as u8
}

/// The word `w` with its low byte replaced by `b`; all other bytes kept.
pub open spec fn patch_word(w: u64, b: u8) -> u64 {
    (w & HIGH_BYTES_MASK) | (b as u64)
}

/// One software breakpoint: the patched address in the inferior, the
/// original byte the patch replaced, and whether the patch is currently
/// written into the inferior's memory.
#[derive(Clone, Copy, PartialEq, Eq, Structural, Debug)]
pub struct Breakpoint {
    pub addr: u64,
    pub saved_byte: u8,
    pub enabled: bool,
}

/// Functional model of `Breakpoint::enable`: given the word currently at
/// the breakpoint's address, the new breakpoint state and the word to
/// write back.
pub open spec fn spec_enable(bp: Breakpoint, w: u64) -> (Breakpoint, u64) {
    (
        Breakpoint { addr: bp.addr, saved_byte: low_byte_of(w), enabled: true },
        patch_word(w, TRAP_OPCODE),
    )
}

/// Functional model of `Breakpoint::disable`.
pub open spec fn spec_disable(bp: Breakpoint, w: u64) -> (Breakpoint, u64) {
    (
        Breakpoint { addr: bp.addr, saved_byte: bp.saved_byte, enabled: false },
        patch_word(w, bp.saved_byte),
    )
}

/// Functional model of `Breakpoint::toggle`.
pub open spec fn spec_toggle(bp: Breakpoint, w: u64) -> (Breakpoint, u64) {
    if bp.enabled {
        spec_disable(bp, w)
    } else {
        spec_enable(bp, w)
    }
}

/// The invariant tying a breakpoint to the word resident at its address:
/// while enabled, the trap opcode sits in the low byte and `saved_byte`
/// holds the true original byte; while disabled, the original byte itself
/// is resident.
pub open spec fn consistent_with(bp: Breakpoint, w: u64) -> bool {
    if bp.enabled {
        low_byte_of(w) == TRAP_OPCODE
    } else {
        low_byte_of(w) == bp.saved_byte
    }
}

impl Breakpoint {
    /// Build a breakpoint at `addr` and enable it at once. `word` is the
    /// word currently resident at `addr`; the result's second component is
    /// the word the caller must write back there.
    pub fn create(addr: u64, word: u64) -> (r: (Breakpoint, u64))
        ensures
            r.0 == (Breakpoint {
                addr: addr,
                saved_byte: low_byte_of(word),
                enabled: true,
            }),
            r.1 == patch_word(word, TRAP_OPCODE),
            consistent_with(r.0, r.1),
    {
        let mut bp = Breakpoint { addr: addr, saved_byte: 0, enabled: false };
        let out = bp.enable(word);
        proof {
            lemma_low_of_patch(word, TRAP_OPCODE);
        }
        (bp, out)
    }

    /// Capture the low byte of `word` as the saved original byte and
    /// return `word` with the trap opcode patched in. Only a disabled
    /// breakpoint may be enabled: the saved byte is captured exactly once
    /// per patch, and enabling while the trap is already resident would
    /// capture the trap opcode itself and corrupt the saved original.
    pub fn enable(&mut self, word: u64) -> (w: u64)
        requires
            !old(self).enabled,
        ensures
            (*final(self), w) == spec_enable(*old(self), word),
    {
        self.saved_byte = (word & 0xff) as u8;
        self.enabled = true;
        (word & HIGH_BYTES_MASK) | (TRAP_OPCODE as u64)
    }

    /// Return `word` with the saved original byte restored in its low
    /// byte, and mark the breakpoint disabled.
    pub fn disable(&mut self, word: u64) -> (w: u64)
        ensures
            (*final(self), w) == spec_disable(*old(self), word),
    {
        self.enabled = false;
        (word & HIGH_BYTES_MASK) | (self.saved_byte as u64)
    }

    /// Disable if enabled, else enable.
    pub fn toggle(&mut self, word: u64) -> (w: u64)
        ensures
            (*final(self), w) == spec_toggle(*old(self), word),
    {
        if self.enabled {
            self.disable(word)
        } else {
            self.enable(word)
        }
    }
}

/// Patching a word leaves exactly the requested byte in the low position.
pub proof fn lemma_low_of_patch(w: u64, b: u8)
    ensures
        low_byte_of(patch_word(w, b)) == b,
{
    assert(((((w & 0xffff_ffff_ffff_ff00u64) | (b as u64)) & 0xff) as u8) == b) by (bit_vector);
}

/// Restoring a word's own low byte is the identity.
pub proof fn lemma_patch_own_low_byte(w: u64)
    ensures
        patch_word(w, low_byte_of(w)) == w,
{
    assert((w & 0xffff_ffff_ffff_ff00u64) | (((w & 0xff) as u8) as u64) == w) by (bit_vector);
}

/// Patching twice keeps only the second byte: the first patch is erased.
pub proof fn lemma_patch_patch(w: u64, b1: u8, b2: u8)
    ensures
        patch_word(patch_word(w, b1), b2) == patch_word(w, b2),
{
    assert((((w & 0xffff_ffff_ffff_ff00u64) | (b1 as u64)) & 0xffff_ffff_ffff_ff00u64) | (
    b2 as u64) == (w & 0xffff_ffff_ffff_ff00u64) | (b2 as u64)) by (bit_vector);
}

/// Law: enabling and then disabling a breakpoint writes back exactly the
/// original word, whatever the address and whatever the original byte —
/// the saved byte captured at enable time is restored unchanged.
pub proof fn lemma_enable_disable_round_trip(bp: Breakpoint, w: u64)
    ensures
        ({
            let (bp1, w1) = spec_enable(bp, w);
            let (bp2, w2) = spec_disable(bp1, w1);
            &&& w2 == w
            &&& !bp2.enabled
            &&& bp2.saved_byte == low_byte_of(w)
            &&& bp2.addr == bp.addr
        }),
{
    lemma_patch_patch(w, TRAP_OPCODE, low_byte_of(w));
    lemma_patch_own_low_byte(w);
}

/// Every toggle re-establishes the breakpoint/memory invariant, whatever
/// state it starts from.
pub proof fn lemma_toggle_consistent(bp: Breakpoint, w: u64)
    ensures
        ({
            let (bp1, w1) = spec_toggle(bp, w);
            consistent_with(bp1, w1)
        }),
{
    if bp.enabled {
        lemma_low_of_patch(w, bp.saved_byte);
    } else {
        lemma_low_of_patch(w, TRAP_OPCODE);
    }
}

/// Law: toggling twice returns a breakpoint to its original
/// enabled/disabled state, to its original saved byte, and its memory
/// effect to the original word — provided the starting word is consistent
/// with the breakpoint's state, as every reachable state is.
pub proof fn lemma_toggle_twice(bp: Breakpoint, w: u64)
    requires
        consistent_with(bp, w),
    ensures
        ({
            let (bp1, w1) = spec_toggle(bp, w);
            let (bp2, w2) = spec_toggle(bp1, w1);
            &&& bp2 == bp
            &&& w2 == w
        }),
{
    if bp.enabled {
        // disable writes back saved_byte, then enable re-captures it and
        // re-installs the trap; the word returns to its trapped form.
        lemma_low_of_patch(w, bp.saved_byte);
        lemma_patch_patch(w, bp.saved_byte, TRAP_OPCODE);
        lemma_patch_own_low_byte(w);
    } else {
        // enable captures the resident original byte, then disable
        // restores it.
        lemma_enable_disable_round_trip(bp, w);
    }
}

} // verus!
