//! Time codes: spans of time written out for reading.

use vstd::prelude::*;
use vstd::string::StringExecFns;

verus! {

/// The character of the decimal digit `d`.
pub open spec fn digit_char(d: int) -> char {
    if d == 0 {
        '0'
    } else if d == 1 {
        '1'
    } else if d == 2 {
        '2'
    } else if d == 3 {
        '3'
    } else if d == 4 {
        '4'
    } else if d == 5 {
        '5'
    } else if d == 6 {
        '6'
    } else if d == 7 {
        '7'
    } else if d == 8 {
        '8'
    } else {
        '9'
    }
}

/// `n` in decimal digits, without leading zeros.
pub open spec fn decimal(n: nat) -> Seq<char>
    decreases n,
{
    if n < 10 {
        seq![digit_char(n as int)]
    } else {
        decimal(n / 10).push(digit_char((n % 10) as int))
    }
}

/// The last `width` decimal digits of `n`, with zeros in front where `n`
/// has fewer.
pub open spec fn zero_padded(n: nat, width: nat) -> Seq<char>
    decreases width,
{
    if width == 0 {
        Seq::empty()
    } else {
        zero_padded(n / 10, (width - 1) as nat).push(digit_char((n % 10) as int))
    }
}

/// The time code of `ns` nanoseconds: seconds, milliseconds, microseconds
/// and nanoseconds, each with its unit, beginning at the largest unit that
/// is not zero. The units after the first are padded with zeros, the
/// nanoseconds to six digits and the others to three.
pub open spec fn timecode(ns: nat) -> Seq<char> {
    let nanos = zero_padded(ns % 1000, 6) + "ns"@;
    let micros = (ns / 1000) % 1000;
    let millis = (ns / 1_000_000) % 1000;
    let seconds = ns / 1_000_000_000;
    if seconds > 0 {
        decimal(seconds) + "s "@ + zero_padded(millis, 3) + "ms "@ + zero_padded(micros, 3)
            + "µs "@ + nanos
    } else if millis > 0 {
        decimal(millis) + "ms "@ + zero_padded(micros, 3) + "µs "@ + nanos
    } else if micros > 0 {
        decimal(micros) + "µs "@ + nanos
    } else {
        nanos
    }
}

/// Appends the digit `d` to `out`.
fn push_digit(out: &mut String, d: u64)
    requires
        d < 10,
    ensures
        final(out)@ == old(out)@.push(digit_char(d as int)),
{
    proof {
        reveal_strlit("0");
        reveal_strlit("1");
        reveal_strlit("2");
        reveal_strlit("3");
        reveal_strlit("4");
        reveal_strlit("5");
        reveal_strlit("6");
        reveal_strlit("7");
        reveal_strlit("8");
        reveal_strlit("9");
    }
    let ghost before = out@;
    if d == 0 {
        out.append("0");
    } else if d == 1 {
        out.append("1");
    } else if d == 2 {
        out.append("2");
    } else if d == 3 {
        out.append("3");
    } else if d == 4 {
        out.append("4");
    } else if d == 5 {
        out.append("5");
    } else if d == 6 {
        out.append("6");
    } else if d == 7 {
        out.append("7");
    } else if d == 8 {
        out.append("8");
    } else {
        out.append("9");
    }
    assert(out@ == before.push(digit_char(d as int)));
}

/// Appends `n` in decimal to `out`.
pub(crate) fn push_decimal(out: &mut String, n: u64)
    ensures
        final(out)@ == old(out)@ + decimal(n as nat),
    decreases n,
{
    if n >= 10 {
        push_decimal(out, n / 10);
    }
    push_digit(out, n % 10);
    assert(out@ == old(out)@ + decimal(n as nat));
}

/// Appends the last `width` decimal digits of `n` to `out`.
pub(crate) fn push_zero_padded(out: &mut String, n: u64, width: u8)
    ensures
        final(out)@ == old(out)@ + zero_padded(n as nat, width as nat),
    decreases width,
{
    if width > 0 {
        push_zero_padded(out, n / 10, width - 1);
        push_digit(out, n % 10);
    }
    assert(out@ == old(out)@ + zero_padded(n as nat, width as nat));
}

/// The time code of `ns` nanoseconds, such as `1s 012ms 012µs 000345ns`.
pub fn timecode_ns_u64(ns: u64) -> (code: String)
    ensures
        code@ == timecode(ns as nat),
{
    let us = ns / 1000;
    let ns_rem = ns % 1000;
    let ms = us / 1000;
    let us_rem = us % 1000;
    let s = ms / 1000;
    let ms_rem = ms % 1000;
    let mut code = String::new();
    if s > 0 {
        push_decimal(&mut code, s);
        code.append("s ");
        push_zero_padded(&mut code, ms_rem, 3);
        code.append("ms ");
        push_zero_padded(&mut code, us_rem, 3);
        code.append("µs ");
    } else if ms > 0 {
        push_decimal(&mut code, ms_rem);
        code.append("ms ");
        push_zero_padded(&mut code, us_rem, 3);
        code.append("µs ");
    } else if us > 0 {
        push_decimal(&mut code, us_rem);
        code.append("µs ");
    }
    push_zero_padded(&mut code, ns_rem, 6);
    code.append("ns");
    assert(code@ == timecode(ns as nat));
    code
}

} // verus!
