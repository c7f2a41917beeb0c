use rustdbg::command::{parse_address, parse_command, parse_hex_u64, split_spaces, Command, Diagnostic};

#[test]
fn split_keeps_empty_tokens() {
    let toks = split_spaces(b"break  0x10");
    assert_eq!(toks.len(), 3);
    assert_eq!(toks[0], b"break".to_vec());
    assert_eq!(toks[1], Vec::<u8>::new());
    assert_eq!(toks[2], b"0x10".to_vec());

    let toks = split_spaces(b"");
    assert_eq!(toks.len(), 1);
    assert_eq!(toks[0], Vec::<u8>::new());

    let toks = split_spaces(b" ");
    assert_eq!(toks.len(), 2);
}

#[test]
fn hex_parsing_exact_values() {
    assert_eq!(parse_hex_u64(b"0"), Some(0));
    assert_eq!(parse_hex_u64(b"1000"), Some(0x1000));
    assert_eq!(parse_hex_u64(b"deadBEEF"), Some(0xdead_beef));
    assert_eq!(parse_hex_u64(b"ffffffffffffffff"), Some(u64::MAX));
    assert_eq!(parse_hex_u64(b"10000000000000000"), None); // 65 bits
    assert_eq!(parse_hex_u64(b""), None);
    assert_eq!(parse_hex_u64(b"12g4"), None);
}

#[test]
fn address_spellings_resolve_to_the_same_key() {
    // "0x1000" and "1000" must resolve to the same table key.
    assert_eq!(parse_address(b"0x1000"), Some(0x1000));
    assert_eq!(parse_address(b"1000"), Some(0x1000));
    assert_eq!(parse_address(b"0xabcdef"), parse_address(b"abcdef"));
    assert_eq!(parse_address(b"0x"), None);
    assert_eq!(parse_address(b""), None);
}

#[test]
fn break_with_one_address_parses() {
    assert_eq!(parse_command(b"break 0x1000"), Command::Break { addr: 0x1000 });
    assert_eq!(parse_command(b"break 1000"), Command::Break { addr: 0x1000 });
}

#[test]
fn break_arity_errors() {
    assert_eq!(
        parse_command(b"break"),
        Command::Invalid { diag: Diagnostic::UsageBreak }
    );
    assert_eq!(
        parse_command(b"break 0x10 0x20"),
        Command::Invalid { diag: Diagnostic::UsageBreak }
    );
    assert_eq!(
        parse_command(b"break "),
        Command::Invalid { diag: Diagnostic::BadAddress }
    );
    assert_eq!(
        parse_command(b"break zzz"),
        Command::Invalid { diag: Diagnostic::BadAddress }
    );
}

#[test]
fn continue_and_quit_arity_errors() {
    assert_eq!(parse_command(b"continue"), Command::Continue);
    assert_eq!(
        parse_command(b"continue now"),
        Command::Invalid { diag: Diagnostic::UsageContinue }
    );
    assert_eq!(parse_command(b"exit"), Command::Quit);
    assert_eq!(parse_command(b"quit"), Command::Quit);
    assert_eq!(
        parse_command(b"exit 0"),
        Command::Invalid { diag: Diagnostic::UsageQuit }
    );
    assert_eq!(
        parse_command(b"quit 0"),
        Command::Invalid { diag: Diagnostic::UsageQuit }
    );
}

#[test]
fn unknown_commands_are_diagnosed() {
    assert_eq!(
        parse_command(b"foobar"),
        Command::Invalid { diag: Diagnostic::UnknownCommand }
    );
    assert_eq!(
        parse_command(b""),
        Command::Invalid { diag: Diagnostic::UnknownCommand }
    );
    assert_eq!(
        parse_command(b"Break 0x10"),
        Command::Invalid { diag: Diagnostic::UnknownCommand }
    );
}
