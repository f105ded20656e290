//! The diagnostics of the kernel's panic handler, which prints one of them
//! and powers the machine off.
use vstd::prelude::*;
use vstd::string::StringExecFns;

verus! {

/// The decimal digit for `d`.
pub open spec fn digit_char(d: nat) -> char {
    if d == 0 {
        '0'
    } else if d == 1 {
        '1'
    } else if d == 2 {
        '2'
    } else if d == 3 {
        '3'
    } else if d == 4 {
        '4'
    } else if d == 5 {
        '5'
    } else if d == 6 {
        '6'
    } else if d == 7 {
        '7'
    } else if d == 8 {
        '8'
    } else {
        '9'
    }
}

/// The decimal notation of `n`, without leading zeros.
pub open spec fn decimal(n: nat) -> Seq<char>
    decreases n,
{
    if n < 10 {
        seq![digit_char(n)]
    } else {
        decimal(n / 10).push(digit_char(n % 10))
    }
}

/// The diagnostic for a panic whose source location is known.
pub open spec fn located_report(file: Seq<char>, line: nat, message: Seq<char>) -> Seq<char> {
    "[kernel] Panicked at "@ + file + ":"@ + decimal(line) + " "@ + message
}

/// The diagnostic for a panic whose source location is unknown.
pub open spec fn unlocated_report(message: Seq<char>) -> Seq<char> {
    "[kernel] Panicked: "@ + message
}

/// The one-character string holding digit `d`.
fn digit_str(d: u32) -> (r: &'static str)
    requires
        d < 10,
    ensures
        r@ == seq![digit_char(d as nat)],
{
    proof {
        reveal_strlit("0");
        reveal_strlit("1");
        reveal_strlit("2");
        reveal_strlit("3");
        reveal_strlit("4");
        reveal_strlit("5");
        reveal_strlit("6");
        reveal_strlit("7");
        reveal_strlit("8");
        reveal_strlit("9");
    }
    match d {
        0 => "0",
        1 => "1",
        2 => "2",
        3 => "3",
        4 => "4",
        5 => "5",
        6 => "6",
        7 => "7",
        8 => "8",
        _ => "9",
    }
}

/// Appends the decimal notation of `n` to `s`.
fn append_decimal(s: &mut String, n: u32)
    ensures
        final(s)@ == old(s)@ + decimal(n as nat),
    decreases n,
{
    if n >= 10 {
        append_decimal(s, n / 10);
    }
    s.append(digit_str(n % 10));
}

/// The diagnostic printed by the panic handler: with the file, the line and
/// the message when the location is known, else a shorter line with the
/// message alone.
pub fn panic_report(location: Option<(&str, u32)>, message: &str) -> (r: String)
    ensures
        r@ == match location {
            Some((file, line)) => located_report(file@, line as nat, message@),
            None => unlocated_report(message@),
        },
{
    match location {
        Some((file, line)) => {
            let mut s = String::from_str("[kernel] Panicked at ");
            s.append(file);
            s.append(":");
            append_decimal(&mut s, line);
            s.append(" ");
            s.append(message);
            s
        },
        None => {
            let mut s = String::from_str("[kernel] Panicked: ");
            s.append(message);
            s
        },
    }
}

/// A located diagnostic holds the file, the line number and the message, in
/// that order: the file right after the fixed prefix, the line after a colon,
/// and the message at the end.
pub proof fn lemma_located_report_parts(file: Seq<char>, line: nat, message: Seq<char>)
    ensures
        ({
            let r = located_report(file, line, message);
            let line_start = 22 + file.len() as int;
            &&& r.subrange(21, 21 + file.len() as int) == file
            &&& r.subrange(line_start, line_start + decimal(line).len() as int) == decimal(line)
            &&& r.subrange(r.len() - message.len(), r.len() as int) == message
        }),
{
    reveal_strlit("[kernel] Panicked at ");
    reveal_strlit(":");
    reveal_strlit(" ");
    let r = located_report(file, line, message);
    let line_start = 22 + file.len() as int;
    assert(r.subrange(21, 21 + file.len() as int) =~= file);
    assert(r.subrange(line_start, line_start + decimal(line).len() as int) =~= decimal(line));
    assert(r.subrange(r.len() - message.len(), r.len() as int) =~= message);
}

/// An unlocated diagnostic is the fixed prefix followed by the message alone.
pub proof fn lemma_unlocated_report_parts(message: Seq<char>)
    ensures
        unlocated_report(message).subrange(19, unlocated_report(message).len() as int) == message,
{
    reveal_strlit("[kernel] Panicked: ");
    assert(unlocated_report(message).subrange(19, unlocated_report(message).len() as int)
        =~= message);
}

/// The two diagnostic formats can always be told apart: no located
/// diagnostic equals an unlocated one, whatever the messages.
pub proof fn lemma_reports_distinct(
    file: Seq<char>,
    line: nat,
    message: Seq<char>,
    other: Seq<char>,
)
    ensures
        located_report(file, line, message) != unlocated_report(other),
{
    reveal_strlit("[kernel] Panicked at ");
    reveal_strlit("[kernel] Panicked: ");
    assert(located_report(file, line, message)[17] == ' ');
    assert(unlocated_report(other)[17] == ':');
}

} // verus!
