//! The register descriptor table: a fixed, ordered sequence of 27
//! descriptors covering the general and segment register set of the
//! target architecture, mapping each register identity to its
//! debug-information register number (or a "none" sentinel) and its
//! display name.
//!
//! Purely a naming and correlation scaffold: built once, never mutated,
//! consulted by register-reporting extensions only.

use vstd::prelude::*;

verus! {

/// The sentinel for a register without a debug-information number.
pub const NO_DWARF_NUMBER: i32 = -1;

/// How many registers the descriptor table covers.
pub const REGISTER_COUNT: usize = 27;

/// Identity of one machine register of the target architecture.
#[derive(Clone, Copy, PartialEq, Eq, Structural, Debug)]
pub enum Register {
    R15,
    R14,
    R13,
    R12,
    Rbp,
    Rbx,
    R11,
    R10,
    R9,
    R8,
    Rax,
    Rcx,
    Rdx,
    Rsi,
    Rdi,
    OrigRax,
    Rip,
    Cs,
    Eflags,
    Rsp,
    Ss,
    FsBase,
    GsBase,
    Ds,
    Es,
    Fs,
    Gs,
}

/// One entry of the descriptor table: a register identity, its
/// debug-information register number (`NO_DWARF_NUMBER` when it has
/// none), and its display name.
pub struct RegDescriptor {
    pub reg: Register,
    pub dwarf_reg_no: i32,
    pub reg_name: &'static str,
}

/// The debug-information register number of each register, per the
/// platform ABI; `NO_DWARF_NUMBER` for the registers the debug format
/// does not number.
pub open spec fn spec_dwarf_number(r: Register) -> i32 {
    match r {
        Register::R15 => 15,
        Register::R14 => 14,
        Register::R13 => 13,
        Register::R12 => 12,
        Register::Rbp => 6,
        Register::Rbx => 3,
        Register::R11 => 11,
        Register::R10 => 10,
        Register::R9 => 9,
        Register::R8 => 8,
        Register::Rax => 0,
        Register::Rcx => 2,
        Register::Rdx => 1,
        Register::Rsi => 4,
        Register::Rdi => 5,
        Register::OrigRax => NO_DWARF_NUMBER,
        Register::Rip => NO_DWARF_NUMBER,
        Register::Cs => 51,
        Register::Eflags => NO_DWARF_NUMBER,
        Register::Rsp => 7,
        Register::Ss => 52,
        Register::FsBase => 58,
        Register::GsBase => 59,
        Register::Ds => 53,
        Register::Es => 50,
        Register::Fs => 54,
        Register::Gs => 55,
    }
}

/// The display name of each register.
pub open spec fn spec_register_name(r: Register) -> Seq<char> {
    match r {
        Register::R15 => "r15"@,
        Register::R14 => "r14"@,
        Register::R13 => "r13"@,
        Register::R12 => "r12"@,
        Register::Rbp => "rbp"@,
        Register::Rbx => "rbx"@,
        Register::R11 => "r11"@,
        Register::R10 => "r10"@,
        Register::R9 => "r9"@,
        Register::R8 => "r8"@,
        Register::Rax => "rax"@,
        Register::Rcx => "rcx"@,
        Register::Rdx => "rdx"@,
        Register::Rsi => "rsi"@,
        Register::Rdi => "rdi"@,
        Register::OrigRax => "orig_rax"@,
        Register::Rip => "rip"@,
        Register::Cs => "cs"@,
        Register::Eflags => "eflags"@,
        Register::Rsp => "rsp"@,
        Register::Ss => "ss"@,
        Register::FsBase => "fs_base"@,
        Register::GsBase => "gs_base"@,
        Register::Ds => "ds"@,
        Register::Es => "es"@,
        Register::Fs => "fs"@,
        Register::Gs => "gs"@,
    }
}

/// The fixed order of the descriptor table.
pub open spec fn spec_register_order() -> Seq<Register> {
    seq![
        Register::R15,
        Register::R14,
        Register::R13,
        Register::R12,
        Register::Rbp,
        Register::Rbx,
        Register::R11,
        Register::R10,
        Register::R9,
        Register::R8,
        Register::Rax,
        Register::Rcx,
        Register::Rdx,
        Register::Rsi,
        Register::Rdi,
        Register::OrigRax,
        Register::Rip,
        Register::Cs,
        Register::Eflags,
        Register::Rsp,
        Register::Ss,
        Register::FsBase,
        Register::GsBase,
        Register::Ds,
        Register::Es,
        Register::Fs,
        Register::Gs,
    ]
}

/// The register a debug-information number stands for, if exactly that
/// number appears in the table. The sentinel stands for no register.
pub open spec fn spec_register_for_dwarf(n: i32) -> Option<Register> {
    if n == 15 {
        Some(Register::R15)
    } else if n == 14 {
        Some(Register::R14)
    } else if n == 13 {
        Some(Register::R13)
    } else if n == 12 {
        Some(Register::R12)
    } else if n == 6 {
        Some(Register::Rbp)
    } else if n == 3 {
        Some(Register::Rbx)
    } else if n == 11 {
        Some(Register::R11)
    } else if n == 10 {
        Some(Register::R10)
    } else if n == 9 {
        Some(Register::R9)
    } else if n == 8 {
        Some(Register::R8)
    } else if n == 0 {
        Some(Register::Rax)
    } else if n == 2 {
        Some(Register::Rcx)
    } else if n == 1 {
        Some(Register::Rdx)
    } else if n == 4 {
        Some(Register::Rsi)
    } else if n == 5 {
        Some(Register::Rdi)
    } else if n == 51 {
        Some(Register::Cs)
    } else if n == 7 {
        Some(Register::Rsp)
    } else if n == 52 {
        Some(Register::Ss)
    } else if n == 58 {
        Some(Register::FsBase)
    } else if n == 59 {
        Some(Register::GsBase)
    } else if n == 53 {
        Some(Register::Ds)
    } else if n == 50 {
        Some(Register::Es)
    } else if n == 54 {
        Some(Register::Fs)
    } else if n == 55 {
        Some(Register::Gs)
    } else {
        None
    }
}

/// The debug-information number of a register.
pub fn dwarf_number(r: Register) -> (n: i32)
    ensures
        n == spec_dwarf_number(r),
{
    match r {
        Register::R15 => 15,
        Register::R14 => 14,
        Register::R13 => 13,
        Register::R12 => 12,
        Register::Rbp => 6,
        Register::Rbx => 3,
        Register::R11 => 11,
        Register::R10 => 10,
        Register::R9 => 9,
        Register::R8 => 8,
        Register::Rax => 0,
        Register::Rcx => 2,
        Register::Rdx => 1,
        Register::Rsi => 4,
        Register::Rdi => 5,
        Register::OrigRax => NO_DWARF_NUMBER,
        Register::Rip => NO_DWARF_NUMBER,
        Register::Cs => 51,
        Register::Eflags => NO_DWARF_NUMBER,
        Register::Rsp => 7,
        Register::Ss => 52,
        Register::FsBase => 58,
        Register::GsBase => 59,
        Register::Ds => 53,
        Register::Es => 50,
        Register::Fs => 54,
        Register::Gs => 55,
    }
}

/// The display name of a register.
pub fn register_name(r: Register) -> (s: &'static str)
    ensures
        s@ == spec_register_name(r),
{
    match r {
        Register::R15 => "r15",
        Register::R14 => "r14",
        Register::R13 => "r13",
        Register::R12 => "r12",
        Register::Rbp => "rbp",
        Register::Rbx => "rbx",
        Register::R11 => "r11",
        Register::R10 => "r10",
        Register::R9 => "r9",
        Register::R8 => "r8",
        Register::Rax => "rax",
        Register::Rcx => "rcx",
        Register::Rdx => "rdx",
        Register::Rsi => "rsi",
        Register::Rdi => "rdi",
        Register::OrigRax => "orig_rax",
        Register::Rip => "rip",
        Register::Cs => "cs",
        Register::Eflags => "eflags",
        Register::Rsp => "rsp",
        Register::Ss => "ss",
        Register::FsBase => "fs_base",
        Register::GsBase => "gs_base",
        Register::Ds => "ds",
        Register::Es => "es",
        Register::Fs => "fs",
        Register::Gs => "gs",
    }
}

/// Reverse lookup: the register a debug-information number names.
pub fn register_for_dwarf(n: i32) -> (r: Option<Register>)
    ensures
        r == spec_register_for_dwarf(n),
{
    if n == 15 {
        Some(Register::R15)
    } else if n == 14 {
        Some(Register::R14)
    } else if n == 13 {
        Some(Register::R13)
    } else if n == 12 {
        Some(Register::R12)
    } else if n == 6 {
        Some(Register::Rbp)
    } else if n == 3 {
        Some(Register::Rbx)
    } else if n == 11 {
        Some(Register::R11)
    } else if n == 10 {
        Some(Register::R10)
    } else if n == 9 {
        Some(Register::R9)
    } else if n == 8 {
        Some(Register::R8)
    } else if n == 0 {
        Some(Register::Rax)
    } else if n == 2 {
        Some(Register::Rcx)
    } else if n == 1 {
        Some(Register::Rdx)
    } else if n == 4 {
        Some(Register::Rsi)
    } else if n == 5 {
        Some(Register::Rdi)
    } else if n == 51 {
        Some(Register::Cs)
    } else if n == 7 {
        Some(Register::Rsp)
    } else if n == 52 {
        Some(Register::Ss)
    } else if n == 58 {
        Some(Register::FsBase)
    } else if n == 59 {
        Some(Register::GsBase)
    } else if n == 53 {
        Some(Register::Ds)
    } else if n == 50 {
        Some(Register::Es)
    } else if n == 54 {
        Some(Register::Fs)
    } else if n == 55 {
        Some(Register::Gs)
    } else {
        None
    }
}

/// The register at one position of the table's fixed order.
pub fn register_at(i: usize) -> (r: Register)
    requires
        i < REGISTER_COUNT,
    ensures
        r == spec_register_order()[i as int],
{
    if i == 0 {
        Register::R15
    } else if i == 1 {
        Register::R14
    } else if i == 2 {
        Register::R13
    } else if i == 3 {
        Register::R12
    } else if i == 4 {
        Register::Rbp
    } else if i == 5 {
        Register::Rbx
    } else if i == 6 {
        Register::R11
    } else if i == 7 {
        Register::R10
    } else if i == 8 {
        Register::R9
    } else if i == 9 {
        Register::R8
    } else if i == 10 {
        Register::Rax
    } else if i == 11 {
        Register::Rcx
    } else if i == 12 {
        Register::Rdx
    } else if i == 13 {
        Register::Rsi
    } else if i == 14 {
        Register::Rdi
    } else if i == 15 {
        Register::OrigRax
    } else if i == 16 {
        Register::Rip
    } else if i == 17 {
        Register::Cs
    } else if i == 18 {
        Register::Eflags
    } else if i == 19 {
        Register::Rsp
    } else if i == 20 {
        Register::Ss
    } else if i == 21 {
        Register::FsBase
    } else if i == 22 {
        Register::GsBase
    } else if i == 23 {
        Register::Ds
    } else if i == 24 {
        Register::Es
    } else if i == 25 {
        Register::Fs
    } else {
        Register::Gs
    }
}

/// Build the full descriptor table, in its fixed order, each entry
/// carrying the register's debug-information number and display name.
pub fn descriptor_table() -> (t: Vec<RegDescriptor>)
    ensures
        t@.len() == REGISTER_COUNT,
        forall|i: int|
            0 <= i < t@.len() ==> #[trigger] t@[i].reg == spec_register_order()[i]
                && t@[i].dwarf_reg_no == spec_dwarf_number(t@[i].reg) && t@[i].reg_name@
                == spec_register_name(t@[i].reg),
{
    let mut t: Vec<RegDescriptor> = Vec::new();
    let mut i: usize = 0;
    while i < 27
        invariant
            i <= 27,
            t@.len() == i,
            forall|j: int|
                0 <= j < i ==> #[trigger] t@[j].reg == spec_register_order()[j]
                    && t@[j].dwarf_reg_no == spec_dwarf_number(t@[j].reg) && t@[j].reg_name@
                    == spec_register_name(t@[j].reg),
        decreases 27 - i,
    {
        let reg = register_at(i);
        let d = RegDescriptor { reg, dwarf_reg_no: dwarf_number(reg), reg_name: register_name(reg) };
        t.push(d);
        i = i + 1;
    }
    t
}

/// Law: the two lookups invert each other. Every register that has a
/// debug-information number is found again under that number, and every
/// successful reverse lookup returns a register carrying exactly the
/// number looked up; the sentinel never resolves.
pub proof fn lemma_dwarf_lookup_inverse(r: Register, n: i32)
    ensures
        spec_dwarf_number(r) != NO_DWARF_NUMBER ==> spec_register_for_dwarf(spec_dwarf_number(r))
            == Some(r),
        spec_register_for_dwarf(n) matches Some(found) ==> spec_dwarf_number(found) == n,
        spec_register_for_dwarf(NO_DWARF_NUMBER) is None,
{
}

} // verus!
