//! Parsing of interactive command lines.
//!
//! One command per line, whitespace-separated tokens, exactly as the
//! dispatcher sees them: `break <addr>` with a hex address (optional `0x`
//! prefix), `continue`, and `exit`/`quit`. Wrong argument counts, an
//! unparseable address, and unknown command words are reported as
//! recoverable diagnostics, never as failures.

use vstd::prelude::*;

verus! {

/// The token separator: one ASCII space.
pub const SPACE: u8 = 0x20;

/// Splitting a byte string on single spaces, empty tokens kept: the split
/// of the empty string is one empty token, and each further byte either
/// closes the current token (a space) or extends it.
pub open spec fn spec_split(s: Seq<u8>) -> Seq<Seq<u8>>
    decreases s.len(),
{
    if s.len() == 0 {
        seq![Seq::<u8>::empty()]
    } else {
        let rest = spec_split(s.drop_last());
        if s.last() == SPACE {
            rest.push(Seq::<u8>::empty())
        } else {
            rest.update(rest.len() - 1, rest.last().push(s.last()))
        }
    }
}

/// A split always yields at least one token.
pub proof fn lemma_split_nonempty(s: Seq<u8>)
    ensures
        spec_split(s).len() >= 1,
    decreases s.len(),
{
    if s.len() > 0 {
        lemma_split_nonempty(s.drop_last());
    }
}

/// The views of a vector of byte tokens.
pub open spec fn views_of(tokens: Seq<Vec<u8>>) -> Seq<Seq<u8>> {
    tokens.map_values(|t: Vec<u8>| t@)
}

/// Split a line into its space-separated tokens, empty tokens kept.
pub fn split_spaces(line: &[u8]) -> (tokens: Vec<Vec<u8>>)
    ensures
        views_of(tokens@) == spec_split(line@),
        tokens@.len() >= 1,
{
    let mut tokens: Vec<Vec<u8>> = Vec::new();
    let mut cur: Vec<u8> = Vec::new();
    let mut i: usize = 0;
    while i < line.len()
        invariant
            i <= line@.len(),
            views_of(tokens@).push(cur@) == spec_split(line@.take(i as int)),
        decreases line@.len() - i,
    {
        let ghost prefix = line@.take(i as int);
        let b = line[i];
        proof {
            assert(line@.take(i as int + 1).drop_last() =~= prefix);
            assert(line@.take(i as int + 1).last() == b);
        }
        if b == SPACE {
            tokens.push(cur);
            cur = Vec::new();
            proof {
                assert(views_of(tokens@).push(cur@) =~= spec_split(prefix).push(
                    Seq::<u8>::empty(),
                ));
            }
        } else {
            let ghost old_tokens = tokens@;
            let ghost old_cur = cur@;
            cur.push(b);
            proof {
                lemma_split_nonempty(prefix);
                let rest = spec_split(prefix);
                assert(rest == views_of(old_tokens).push(old_cur));
                assert(rest.last() == old_cur);
                assert(views_of(tokens@).push(cur@) =~= rest.update(
                    rest.len() - 1,
                    rest.last().push(b),
                ));
            }
        }
        i = i + 1;
    }
    proof {
        assert(line@.take(line@.len() as int) =~= line@);
    }
    tokens.push(cur);
    proof {
        assert(views_of(tokens@) =~= spec_split(line@));
    }
    tokens
}

/// Is the byte an ASCII hexadecimal digit (either case)?
pub open spec fn is_hex_digit(b: u8) -> bool {
    (0x30 <= b && b <= 0x39) || (0x61 <= b && b <= 0x66) || (0x41 <= b && b <= 0x46)
}

/// The numeric value of a hexadecimal digit.
pub open spec fn hex_digit_value(b: u8) -> nat
    recommends
        is_hex_digit(b),
{
    if 0x30 <= b && b <= 0x39 {
        (b - 0x30) as nat
    } else if 0x61 <= b && b <= 0x66 {
        (b - 0x61 + 10) as nat
    } else if 0x41 <= b && b <= 0x46 {
        (b - 0x41 + 10) as nat
    } else {
        0
    }
}

/// Does the string consist of hexadecimal digits only?
pub open spec fn all_hex_digits(s: Seq<u8>) -> bool {
    forall|i: int| 0 <= i < s.len() ==> is_hex_digit(s[i])
}

/// The unbounded numeric value of a hexadecimal digit string, most
/// significant digit first.
pub open spec fn hex_value(s: Seq<u8>) -> nat
    decreases s.len(),
{
    if s.len() == 0 {
        0
    } else {
        hex_value(s.drop_last()) * 16 + hex_digit_value(s.last())
    }
}

/// A prefix of a digit string never exceeds the whole string's value.
pub proof fn lemma_hex_value_prefix_le(s: Seq<u8>, j: int)
    requires
        0 <= j <= s.len(),
    ensures
        hex_value(s.take(j)) <= hex_value(s),
    decreases s.len() - j,
{
    if j < s.len() {
        assert(s.take(j + 1).drop_last() =~= s.take(j));
        assert(hex_value(s.take(j + 1)) == hex_value(s.take(j)) * 16 + hex_digit_value(
            s.take(j + 1).last(),
        ));
        lemma_hex_value_prefix_le(s, j + 1);
    } else {
        assert(s.take(j) =~= s);
    }
}

/// Parse a hexadecimal digit string into a 64-bit value. Returns `Some`
/// exactly when the string is nonempty, consists of hex digits only, and
/// its value fits in 64 bits.
pub fn parse_hex_u64(s: &[u8]) -> (r: Option<u64>)
    ensures
        match r {
            Some(v) => s@.len() > 0 && all_hex_digits(s@) && v == hex_value(s@),
            None => s@.len() == 0 || !all_hex_digits(s@) || hex_value(s@) > u64::MAX,
        },
{
    if s.len() == 0 {
        return None;
    }
    let mut acc: u64 = 0;
    let mut i: usize = 0;
    while i < s.len()
        invariant
            i <= s@.len(),
            all_hex_digits(s@.take(i as int)),
            acc == hex_value(s@.take(i as int)),
        decreases s@.len() - i,
    {
        let b = s[i];
        proof {
            assert(s@.take(i as int + 1).drop_last() =~= s@.take(i as int));
            assert(s@.take(i as int + 1).last() == b);
        }
        let d: u64;
        if 0x30 <= b && b <= 0x39 {
            d = (b - 0x30) as u64;
        } else if 0x61 <= b && b <= 0x66 {
            d = (b - 0x61 + 10) as u64;
        } else if 0x41 <= b && b <= 0x46 {
            d = (b - 0x41 + 10) as u64;
        } else {
            proof {
                assert(!is_hex_digit(s@[i as int]));
            }
            return None;
        }
        if acc > 0x0fff_ffff_ffff_ffff {
            // One more digit pushes the value past 64 bits, and further
            // digits can only grow it.
            proof {
                assert(hex_value(s@.take(i as int + 1)) > u64::MAX);
                lemma_hex_value_prefix_le(s@, i as int + 1);
            }
            return None;
        }
        acc = acc * 16 + d;
        i = i + 1;
    }
    proof {
        assert(s@.take(s@.len() as int) =~= s@);
    }
    Some(acc)
}

/// Does the token begin with the optional hexadecimal marker `0x`?
pub open spec fn has_hex_prefix(s: Seq<u8>) -> bool {
    s.len() >= 2 && s[0] == 0x30 && s[1] == 0x78
}

/// Parsing an address token: an optional `0x` prefix is stripped, and the
/// remainder must be a nonempty hex digit string whose value fits in 64
/// bits.
pub open spec fn spec_parse_address(s: Seq<u8>) -> Option<u64> {
    let body = if has_hex_prefix(s) {
        s.skip(2)
    } else {
        s
    };
    if body.len() > 0 && all_hex_digits(body) && hex_value(body) <= u64::MAX {
        Some(hex_value(body) as u64)
    } else {
        None
    }
}

/// Parse an address token, with or without a `0x` prefix.
pub fn parse_address(s: &[u8]) -> (r: Option<u64>)
    ensures
        r == spec_parse_address(s@),
{
    if s.len() >= 2 && s[0] == 0x30 && s[1] == 0x78 {
        let body = vstd::slice::slice_subrange(s, 2, s.len());
        proof {
            assert(body@ =~= s@.skip(2));
        }
        parse_hex_u64(body)
    } else {
        parse_hex_u64(s)
    }
}

/// Law: a `0x`-prefixed spelling and the bare spelling of an address
/// token resolve to the same value — and so to the same breakpoint-table
/// key — for every token that does not itself begin with the prefix.
pub proof fn lemma_hex_prefix_normalization(s: Seq<u8>)
    requires
        !has_hex_prefix(s),
    ensures
        spec_parse_address(seq![0x30, 0x78] + s) == spec_parse_address(s),
{
    let p = seq![0x30, 0x78] + s;
    assert(p[0] == 0x30 && p[1] == 0x78);
    assert(p.skip(2) =~= s);
}

/// Does the token spell `break`?
pub open spec fn is_break_word(t: Seq<u8>) -> bool {
    t.len() == 5 && t[0] == 0x62 && t[1] == 0x72 && t[2] == 0x65 && t[3] == 0x61 && t[4] == 0x6b
}

/// Does the token spell `continue`?
pub open spec fn is_continue_word(t: Seq<u8>) -> bool {
    t.len() == 8 && t[0] == 0x63 && t[1] == 0x6f && t[2] == 0x6e && t[3] == 0x74 && t[4] == 0x69
        && t[5] == 0x6e && t[6] == 0x75 && t[7] == 0x65
}

/// Does the token spell `exit`?
pub open spec fn is_exit_word(t: Seq<u8>) -> bool {
    t.len() == 4 && t[0] == 0x65 && t[1] == 0x78 && t[2] == 0x69 && t[3] == 0x74
}

/// Does the token spell `quit`?
pub open spec fn is_quit_word(t: Seq<u8>) -> bool {
    t.len() == 4 && t[0] == 0x71 && t[1] == 0x75 && t[2] == 0x69 && t[3] == 0x74
}

fn token_is_break(t: &[u8]) -> (r: bool)
    ensures
        r == is_break_word(t@),
{
    t.len() == 5 && t[0] == 0x62 && t[1] == 0x72 && t[2] == 0x65 && t[3] == 0x61 && t[4] == 0x6b
}

fn token_is_continue(t: &[u8]) -> (r: bool)
    ensures
        r == is_continue_word(t@),
{
    t.len() == 8 && t[0] == 0x63 && t[1] == 0x6f && t[2] == 0x6e && t[3] == 0x74 && t[4] == 0x69
        && t[5] == 0x6e && t[6] == 0x75 && t[7] == 0x65
}

fn token_is_exit(t: &[u8]) -> (r: bool)
    ensures
        r == is_exit_word(t@),
{
    t.len() == 4 && t[0] == 0x65 && t[1] == 0x78 && t[2] == 0x69 && t[3] == 0x74
}

fn token_is_quit(t: &[u8]) -> (r: bool)
    ensures
        r == is_quit_word(t@),
{
    t.len() == 4 && t[0] == 0x71 && t[1] == 0x75 && t[2] == 0x69 && t[3] == 0x74
}

/// A recoverable complaint about one input line; reported to the error
/// stream by the embedding program, never fatal.
#[derive(Clone, Copy, PartialEq, Eq, Structural, Debug)]
pub enum Diagnostic {
    /// `break` with an argument count other than one address token.
    UsageBreak,
    /// `continue` with trailing tokens.
    UsageContinue,
    /// `exit`/`quit` with trailing tokens.
    UsageQuit,
    /// `break` whose address token is not a hex address.
    BadAddress,
    /// A command word this debugger does not know.
    UnknownCommand,
}

/// One parsed command line.
#[derive(Clone, Copy, PartialEq, Eq, Structural, Debug)]
pub enum Command {
    /// Toggle or create the breakpoint at this address.
    Break { addr: u64 },
    /// Resume the inferior and block until its next stop.
    Continue,
    /// Signal the inferior and terminate the tool.
    Quit,
    /// A malformed line; the session must stay as it is.
    Invalid { diag: Diagnostic },
}

/// The grammar of a command line: the first token picks the command, the
/// token count must match its arity, and `break`'s one argument must be a
/// parseable address.
pub open spec fn spec_parse_command(line: Seq<u8>) -> Command {
    let toks = spec_split(line);
    let head = toks[0];
    if is_break_word(head) {
        if toks.len() == 2 {
            match spec_parse_address(toks[1]) {
                Some(a) => Command::Break { addr: a },
                None => Command::Invalid { diag: Diagnostic::BadAddress },
            }
        } else {
            Command::Invalid { diag: Diagnostic::UsageBreak }
        }
    } else if is_continue_word(head) {
        if toks.len() == 1 {
            Command::Continue
        } else {
            Command::Invalid { diag: Diagnostic::UsageContinue }
        }
    } else if is_exit_word(head) || is_quit_word(head) {
        if toks.len() == 1 {
            Command::Quit
        } else {
            Command::Invalid { diag: Diagnostic::UsageQuit }
        }
    } else {
        Command::Invalid { diag: Diagnostic::UnknownCommand }
    }
}

/// Parse one input line into a command or a diagnostic.
pub fn parse_command(line: &[u8]) -> (c: Command)
    ensures
        c == spec_parse_command(line@),
{
    let tokens = split_spaces(line);
    let head = tokens[0].as_slice();
    if token_is_break(head) {
        if tokens.len() == 2 {
            match parse_address(tokens[1].as_slice()) {
                Some(a) => Command::Break { addr: a },
                None => Command::Invalid { diag: Diagnostic::BadAddress },
            }
        } else {
            Command::Invalid { diag: Diagnostic::UsageBreak }
        }
    } else if token_is_continue(head) {
        if tokens.len() == 1 {
            Command::Continue
        } else {
            Command::Invalid { diag: Diagnostic::UsageContinue }
        }
    } else if token_is_exit(head) || token_is_quit(head) {
        if tokens.len() == 1 {
            Command::Quit
        } else {
            Command::Invalid { diag: Diagnostic::UsageQuit }
        }
    } else {
        Command::Invalid { diag: Diagnostic::UnknownCommand }
    }
}

} // verus!
