//! The breakpoint table: a map from address to breakpoint, owned by the
//! debugging session.
//!
//! Entries are created lazily on the first reference to an address and are
//! never deleted: a disabled breakpoint simply remains present but inert.

use vstd::prelude::*;
use std::collections::HashMap;
use crate::breakpoint::Breakpoint;
use crate::breakpoint::consistent_with;
use crate::breakpoint::lemma_low_of_patch;
use crate::breakpoint::lemma_toggle_consistent;
use crate::breakpoint::low_byte_of;
use crate::breakpoint::patch_word;
use crate::breakpoint::spec_toggle;
use crate::breakpoint::TRAP_OPCODE;

verus! {

broadcast use vstd::std_specs::hash::group_hash_axioms;

/// Outcome of `BreakpointTable::toggle_or_create`: whether the address
/// already had an entry before the call, and the word the caller must
/// write back at the address.
#[derive(Clone, Copy, PartialEq, Eq, Structural, Debug)]
pub struct ToggleOutcome {
    pub existed: bool,
    pub write_word: u64,
}

/// Functional model of `BreakpointTable::toggle_or_create`: the table
/// contents after the call, and its outcome, given the word currently
/// resident at `addr`.
pub open spec fn spec_toggle_or_create(m: Map<u64, Breakpoint>, addr: u64, word: u64) -> (
    Map<u64, Breakpoint>,
    ToggleOutcome,
) {
    if m.contains_key(addr) {
        let (bp1, w1) = spec_toggle(m[addr], word);
        (m.insert(addr, bp1), ToggleOutcome { existed: true, write_word: w1 })
    } else {
        (
            m.insert(
                addr,
                Breakpoint { addr: addr, saved_byte: low_byte_of(word), enabled: true },
            ),
            ToggleOutcome { existed: false, write_word: patch_word(word, TRAP_OPCODE) },
        )
    }
}

/// Every entry of the table records the address it is filed under.
pub open spec fn addr_keyed(m: Map<u64, Breakpoint>) -> bool {
    forall|a: u64| #[trigger] m.contains_key(a) ==> m[a].addr == a
}

/// Law: toggling or creating keeps every entry filed under its own
/// address, and never deletes an entry — the one address touched is
/// present afterwards, and all others are exactly as they were.
pub proof fn lemma_toggle_or_create_preserves_table(m: Map<u64, Breakpoint>, addr: u64, word: u64)
    ensures
        addr_keyed(m) ==> addr_keyed(spec_toggle_or_create(m, addr, word).0),
        spec_toggle_or_create(m, addr, word).0.dom() == m.dom().insert(addr),
        forall|a: u64| a != addr && #[trigger] m.contains_key(a) ==> spec_toggle_or_create(
            m,
            addr,
            word,
        ).0[a] == m[a],
{
    assert(spec_toggle_or_create(m, addr, word).0.dom() =~= m.dom().insert(addr));
}

/// Every entry of the table agrees with the word resident at its address
/// in the inferior's memory, modelled as the word each tracing read at
/// that address would return: an enabled entry has the trap opcode
/// resident, a disabled one its saved original byte.
pub open spec fn table_consistent(m: Map<u64, Breakpoint>, mem: Map<u64, u64>) -> bool {
    forall|a: u64| #[trigger] m.contains_key(a) ==> mem.contains_key(a) && consistent_with(
        m[a],
        mem[a],
    )
}

/// Law: a toggle-or-create keeps the whole table consistent with the
/// inferior's memory, provided the word handed in is the one resident at
/// the address and the outcome's word is written back there. The one
/// touched entry re-establishes the patch invariant; every other entry
/// and its resident word are untouched.
pub proof fn lemma_toggle_or_create_keeps_consistency(
    m: Map<u64, Breakpoint>,
    mem: Map<u64, u64>,
    addr: u64,
    word: u64,
)
    requires
        table_consistent(m, mem),
        mem.contains_key(addr),
        word == mem[addr],
    ensures
        ({
            let (m1, outcome) = spec_toggle_or_create(m, addr, word);
            table_consistent(m1, mem.insert(addr, outcome.write_word))
        }),
{
    let (m1, outcome) = spec_toggle_or_create(m, addr, word);
    let mem1 = mem.insert(addr, outcome.write_word);
    assert forall|a: u64| #[trigger] m1.contains_key(a) implies mem1.contains_key(a)
        && consistent_with(m1[a], mem1[a]) by {
        if a == addr {
            if m.contains_key(addr) {
                lemma_toggle_consistent(m[addr], word);
            } else {
                lemma_low_of_patch(word, TRAP_OPCODE);
            }
        } else {
            assert(m.contains_key(a));
        }
    }
}

/// Mapping from address to breakpoint, keys unique, insertion order
/// irrelevant.
pub struct BreakpointTable {
    map: HashMap<u64, Breakpoint>,
}

impl BreakpointTable {
    /// The table abstractly: a map from address to breakpoint state.
    pub closed spec fn view(&self) -> Map<u64, Breakpoint> {
        self.map@
    }

    /// An empty table.
    pub fn new() -> (t: BreakpointTable)
        ensures
            t@ == Map::<u64, Breakpoint>::empty(),
    {
        BreakpointTable { map: HashMap::new() }
    }

    /// Existence check: does the address already have an entry? Purely
    /// informational; nothing is created or changed.
    pub fn lookup(&self, addr: u64) -> (present: bool)
        ensures
            present == self@.contains_key(addr),
    {
        self.map.contains_key(&addr)
    }

    /// The breakpoint currently recorded at `addr`, if any.
    pub fn get(&self, addr: u64) -> (r: Option<Breakpoint>)
        ensures
            match r {
                Some(bp) => self@.contains_key(addr) && bp == self@[addr],
                None => !self@.contains_key(addr),
            },
    {
        match self.map.get(&addr) {
            Some(bp) => Some(*bp),
            None => None,
        }
    }

    /// If an entry exists at `addr`, toggle it; otherwise create a new,
    /// immediately enabled breakpoint there. `word` is the word currently
    /// resident at `addr` in the inferior; the caller must write
    /// `write_word` back at `addr` to give the toggle its memory effect.
    pub fn toggle_or_create(&mut self, addr: u64, word: u64) -> (r: ToggleOutcome)
        ensures
            r.existed == old(self)@.contains_key(addr),
            (final(self)@, r) == spec_toggle_or_create(old(self)@, addr, word),
    {
        match self.map.get(&addr) {
            Some(bp) => {
                let mut bp = *bp;
                let write_word = bp.toggle(word);
                self.map.insert(addr, bp);
                ToggleOutcome { existed: true, write_word }
            },
            None => {
                let (bp, write_word) = Breakpoint::create(addr, word);
                self.map.insert(addr, bp);
                ToggleOutcome { existed: false, write_word }
            },
        }
    }
}

} // verus!
