use rustdbg::breakpoint::{Breakpoint, HIGH_BYTES_MASK, TRAP_OPCODE};

#[test]
fn create_captures_low_byte_and_installs_trap() {
    let word: u64 = 0xdead_beef_12;
    let (bp, write_word) = Breakpoint::create(0x40_1000, word);
    assert_eq!(bp.addr, 0x40_1000);
    assert_eq!(bp.saved_byte, 0x12);
    assert!(bp.enabled);
    assert_eq!(write_word, 0xdead_beef_cc);
}

#[test]
fn enable_then_disable_restores_original_word() {
    // Round trip: for an arbitrary original word, enabling and then
    // disabling writes back exactly the original bytes.
    let original: u64 = 0x0123_4567_89ab_cdef;
    let mut bp = Breakpoint { addr: 0x1000, saved_byte: 0, enabled: false };
    let trapped = bp.enable(original);
    assert_eq!(trapped, 0x0123_4567_89ab_cdcc);
    assert_eq!(bp.saved_byte, 0xef);
    let restored = bp.disable(trapped);
    assert_eq!(restored, original);
    assert!(!bp.enabled);
}

#[test]
fn round_trip_preserves_every_byte_value() {
    for byte in 0..=255u64 {
        let original: u64 = 0xffff_0000_aaaa_5500 | byte;
        let mut bp = Breakpoint { addr: 0x2000, saved_byte: 0, enabled: false };
        let trapped = bp.enable(original);
        assert_eq!(trapped & 0xff, TRAP_OPCODE as u64);
        assert_eq!(trapped & HIGH_BYTES_MASK, original & HIGH_BYTES_MASK);
        let restored = bp.disable(trapped);
        assert_eq!(restored, original);
    }
}

#[test]
fn toggle_twice_returns_to_original_state_and_word() {
    // From a consistent disabled state.
    let original: u64 = 0x1111_2222_3333_4477;
    let mut bp = Breakpoint { addr: 0x3000, saved_byte: 0x77, enabled: false };
    let w1 = bp.toggle(original);
    assert!(bp.enabled);
    assert_eq!(w1 & 0xff, TRAP_OPCODE as u64);
    let w2 = bp.toggle(w1);
    assert!(!bp.enabled);
    assert_eq!(bp.saved_byte, 0x77);
    assert_eq!(w2, original);

    // From a consistent enabled state.
    let trapped: u64 = 0x5555_6666_7777_88cc;
    let mut bp = Breakpoint { addr: 0x3000, saved_byte: 0x9a, enabled: true };
    let w1 = bp.toggle(trapped);
    assert!(!bp.enabled);
    assert_eq!(w1, 0x5555_6666_7777_889a);
    let w2 = bp.toggle(w1);
    assert!(bp.enabled);
    assert_eq!(bp.saved_byte, 0x9a);
    assert_eq!(w2, trapped);
}
