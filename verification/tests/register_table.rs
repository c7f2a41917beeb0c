use rustdbg::registers::{
    descriptor_table, dwarf_number, register_at, register_for_dwarf, register_name, Register,
    NO_DWARF_NUMBER, REGISTER_COUNT,
};

#[test]
fn table_has_27_entries_in_the_fixed_order() {
    let table = descriptor_table();
    assert_eq!(table.len(), REGISTER_COUNT);
    assert_eq!(table[0].reg, Register::R15);
    assert_eq!(table[0].dwarf_reg_no, 15);
    assert_eq!(table[0].reg_name, "r15");
    assert_eq!(table[26].reg, Register::Gs);
    assert_eq!(table[26].dwarf_reg_no, 55);
    assert_eq!(table[26].reg_name, "gs");
    for (i, d) in table.iter().enumerate() {
        assert_eq!(d.reg, register_at(i));
        assert_eq!(d.dwarf_reg_no, dwarf_number(d.reg));
        assert_eq!(d.reg_name, register_name(d.reg));
    }
}

#[test]
fn dwarf_numbers_match_the_platform_abi() {
    assert_eq!(dwarf_number(Register::Rax), 0);
    assert_eq!(dwarf_number(Register::Rdx), 1);
    assert_eq!(dwarf_number(Register::Rbp), 6);
    assert_eq!(dwarf_number(Register::Rsp), 7);
    assert_eq!(dwarf_number(Register::Rip), NO_DWARF_NUMBER);
    assert_eq!(dwarf_number(Register::OrigRax), NO_DWARF_NUMBER);
    assert_eq!(dwarf_number(Register::Eflags), NO_DWARF_NUMBER);
    assert_eq!(dwarf_number(Register::FsBase), 58);
}

#[test]
fn display_names_match() {
    assert_eq!(register_name(Register::Rax), "rax");
    assert_eq!(register_name(Register::OrigRax), "orig_rax");
    assert_eq!(register_name(Register::FsBase), "fs_base");
}

#[test]
fn reverse_lookup_inverts_the_numbering() {
    for i in 0..REGISTER_COUNT {
        let r = register_at(i);
        let n = dwarf_number(r);
        if n != NO_DWARF_NUMBER {
            assert_eq!(register_for_dwarf(n), Some(r));
        }
    }
    assert_eq!(register_for_dwarf(NO_DWARF_NUMBER), None);
    assert_eq!(register_for_dwarf(100), None);
    assert_eq!(register_for_dwarf(16), None);
}
