//! Text that the board bring-up program writes, and the message with which
//! its handler for unexpected interrupts halts.

use vstd::prelude::*;

verus! {

/// Written to the debugger's standard output when the program starts.
pub const SEMIHOSTING_GREETING: &'static str = "semihosting test\n\r";

/// Written to the serial line once it is configured.
pub const SERIAL_GREETING: &'static str = "\n\rserial test\n\r";

/// The message with which the program halts after its greetings.
pub const FINAL_PANIC: &'static str = "test-panic";

/// The character of a decimal digit.
pub open spec fn digit_char(d: nat) -> char {
    if d == 0 { '0' }
    else if d == 1 { '1' }
    else if d == 2 { '2' }
    else if d == 3 { '3' }
    else if d == 4 { '4' }
    else if d == 5 { '5' }
    else if d == 6 { '6' }
    else if d == 7 { '7' }
    else if d == 8 { '8' }
    else { '9' }
}

/// Decimal digits of a natural number, most significant first, without
/// leading zeros ("0" for zero).
pub open spec fn digits_of(n: nat) -> Seq<char>
    decreases n,
{
    if n < 10 {
        seq![digit_char(n)]
    } else {
        digits_of(n / 10) + seq![digit_char(n % 10)]
    }
}

/// Decimal notation of an integer: a minus sign before the digits of a
/// negative number, none before the others.
pub open spec fn decimal_of(n: int) -> Seq<char> {
    if n < 0 {
        seq!['-'] + digits_of((-n) as nat)
    } else {
        digits_of(n as nat)
    }
}

/// One-character string for a decimal digit.
fn digit_str(d: u32) -> (r: &'static str)
    requires
        d < 10,
    ensures
        r@ == seq![digit_char(d as nat)],
{
    proof {
        reveal_strlit("0");
        reveal_strlit("1");
        reveal_strlit("2");
        reveal_strlit("3");
        reveal_strlit("4");
        reveal_strlit("5");
        reveal_strlit("6");
        reveal_strlit("7");
        reveal_strlit("8");
        reveal_strlit("9");
    }
    match d {
        0 => "0",
        1 => "1",
        2 => "2",
        3 => "3",
        4 => "4",
        5 => "5",
        6 => "6",
        7 => "7",
        8 => "8",
        _ => "9",
    }
}

/// Appends the decimal digits of `n` to `out`.
fn push_digits(out: &mut String, n: u32)
    ensures
        final(out)@ == old(out)@ + digits_of(n as nat),
    decreases n,
{
    if n >= 10 {
        push_digits(out, n / 10);
    }
    let d = digit_str(n % 10);
    out.append(d);
    proof {
        assert(final(out)@ =~= old(out)@ + digits_of(n as nat));
    }
}

/// What the handler for unexpected interrupts reports before it halts.
pub open spec fn unhandled_message(irqn: int) -> Seq<char> {
    "Unhandled exception (IRQn = "@ + decimal_of(irqn) + ")"@
}

/// The decimal notation of `n`.
pub fn decimal(n: i16) -> (r: String)
    ensures
        r@ == decimal_of(n as int),
{
    let mut out = String::new();
    let wide: i32 = n as i32;
    if wide < 0 {
        out.append("-");
        proof {
            reveal_strlit("-");
        }
        push_digits(&mut out, (-wide) as u32);
    } else {
        push_digits(&mut out, wide as u32);
    }
    proof {
        assert(out@ =~= decimal_of(n as int));
    }
    out
}

/// The message with which the handler for an unexpected interrupt
/// (any but the hard fault) halts: it names the interrupt number `irqn`.
pub fn default_handler(irqn: i16) -> (r: String)
    ensures
        r@ == unhandled_message(irqn as int),
{
    let mut r = String::from_str("Unhandled exception (IRQn = ");
    let digits = decimal(irqn);
    r.append(digits.as_str());
    r.append(")");
    r
}

} // verus!
