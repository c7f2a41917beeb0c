use rustdbg::breakpoint::TRAP_OPCODE;
use rustdbg::command::Diagnostic;
use rustdbg::session::{Effect, RunState, Session, StopEvent};
use rustdbg::table::BreakpointTable;

#[test]
fn fresh_address_reports_no_prior_entry_then_exists() {
    let mut table = BreakpointTable::new();
    assert!(!table.lookup(0x1000));
    let first = table.toggle_or_create(0x1000, 0xaaaa_bb42);
    assert!(!first.existed);
    assert_eq!(first.write_word, 0xaaaa_bbcc);
    assert!(table.lookup(0x1000));
    let second = table.toggle_or_create(0x1000, first.write_word);
    assert!(second.existed);
    assert_eq!(second.write_word, 0xaaaa_bb42);
    // The entry remains present but inert after disabling.
    assert!(table.lookup(0x1000));
    let bp = table.get(0x1000).unwrap();
    assert!(!bp.enabled);
    assert_eq!(bp.saved_byte, 0x42);
}

#[test]
fn both_address_spellings_hit_the_same_entry() {
    let mut session = Session::new(String::from("target"));
    let e1 = session.handle_command(b"break 0x1000");
    let addr1 = match e1 {
        Effect::Toggle { addr, existed } => {
            assert!(!existed);
            addr
        }
        other => panic!("unexpected effect {:?}", other),
    };
    let out = session.toggle_breakpoint(addr1, 0x5555_0071);
    assert!(!out.existed);

    let e2 = session.handle_command(b"break 1000");
    match e2 {
        Effect::Toggle { addr, existed } => {
            assert_eq!(addr, addr1);
            assert!(existed);
        }
        other => panic!("unexpected effect {:?}", other),
    }
}

#[test]
fn usage_errors_leave_the_session_unchanged() {
    let mut session = Session::new(String::from("target"));
    session.toggle_breakpoint(0x40, 0x99_00);

    let cases: [(&[u8], Diagnostic); 5] = [
        (b"break", Diagnostic::UsageBreak),
        (b"break 1 2", Diagnostic::UsageBreak),
        (b"continue x", Diagnostic::UsageContinue),
        (b"exit now", Diagnostic::UsageQuit),
        (b"quit now", Diagnostic::UsageQuit),
    ];
    for (line, want) in cases {
        let e = session.handle_command(line);
        assert_eq!(e, Effect::Report { diag: want });
        assert_eq!(session.state, RunState::Stopped);
        assert!(session.table.lookup(0x40));
        assert!(!session.table.lookup(0x41));
    }
}

#[test]
fn unknown_command_leaves_the_session_unchanged() {
    let mut session = Session::new(String::from("target"));
    session.toggle_breakpoint(0x40, 0x99_00);
    let e = session.handle_command(b"foobar");
    assert_eq!(e, Effect::Report { diag: Diagnostic::UnknownCommand });
    assert_eq!(session.state, RunState::Stopped);
    assert!(session.table.lookup(0x40));
    let bp = session.table.get(0x40).unwrap();
    assert!(bp.enabled);
    assert_eq!(bp.saved_byte, 0x00);
}

#[test]
fn lifecycle_break_continue_trap_quit() {
    // Launch program P with entry address A (model level: the inferior is
    // stopped at its initial trace-stop); break A; continue; a trap is
    // delivered at A before the original byte runs; quit.
    let entry: u64 = 0x40_1040;
    let word_at_entry: u64 = 0x0000_9090_9090_4855; // low byte 0x55 is the entry instruction
    let mut session = Session::new(String::from("target"));
    assert_eq!(session.state, RunState::Stopped);

    let effect = session.handle_command(b"break 0x401040");
    assert_eq!(effect, Effect::Toggle { addr: entry, existed: false });
    let out = session.toggle_breakpoint(entry, word_at_entry);
    assert_eq!(out.write_word & 0xff, TRAP_OPCODE as u64);
    let bp = session.table.get(entry).unwrap();
    assert!(bp.enabled);
    assert_eq!(bp.saved_byte, 0x55);

    let effect = session.handle_command(b"continue");
    assert_eq!(effect, Effect::Resume);
    assert_eq!(session.state, RunState::Running);
    session.observe_stop(StopEvent::Trapped);
    assert_eq!(session.state, RunState::Stopped);

    let effect = session.handle_command(b"quit");
    assert_eq!(effect, Effect::Terminate);
    assert_eq!(session.state, RunState::Terminated);
}

#[test]
fn observed_exit_terminates_the_session() {
    let mut session = Session::new(String::from("target"));
    session.continue_execution();
    assert_eq!(session.state, RunState::Running);
    session.observe_stop(StopEvent::Exited);
    assert_eq!(session.state, RunState::Terminated);

    let mut session = Session::new(String::from("target"));
    session.continue_execution();
    session.observe_stop(StopEvent::SignalDelivery);
    assert_eq!(session.state, RunState::Stopped);
}
