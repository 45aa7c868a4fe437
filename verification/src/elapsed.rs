//! Human-scaled elapsed-time reporting for submission latency.
//!
//! A measured duration is reported with its largest two non-zero components:
//! seconds and milliseconds when milliseconds are present, seconds and
//! microseconds otherwise, and a zero-duration sentinel when every component
//! rounds to nothing. The microsecond component is shown only when the
//! millisecond component is zero, to avoid redundancy.
use vstd::prelude::*;

verus! {

/// The character for one decimal digit.
pub open spec fn digit_char(d: nat) -> char {
    if d == 0 {
        '0'
    } else if d == 1 {
        '1'
    } else if d == 2 {
        '2'
    } else if d == 3 {
        '3'
    } else if d == 4 {
        '4'
    } else if d == 5 {
        '5'
    } else if d == 6 {
        '6'
    } else if d == 7 {
        '7'
    } else if d == 8 {
        '8'
    } else {
        '9'
    }
}

/// Decimal digits of `n`, most significant first, no leading zeros
/// (a single `'0'` for zero).
pub open spec fn dec_digits(n: nat) -> Seq<char>
    decreases n,
{
    if n < 10 {
        seq![digit_char(n)]
    } else {
        dec_digits(n / 10).push(digit_char(n % 10))
    }
}

/// The separator between two reported components.
pub open spec fn part_sep() -> Seq<char> {
    seq![' ', ':', ' ']
}

/// The seconds component, e.g. `"2s"`.
pub open spec fn secs_part(secs: nat) -> Seq<char> {
    dec_digits(secs) + seq!['s']
}

/// The milliseconds component, e.g. `"500ms"`.
pub open spec fn millis_part(millis: nat) -> Seq<char> {
    dec_digits(millis) + seq!['m', 's']
}

/// The microseconds component, e.g. `"500µs"`.
pub open spec fn micros_part(micros: nat) -> Seq<char> {
    dec_digits(micros) + seq!['µ', 's']
}

/// The rendered report for a duration of `secs` whole seconds plus `nanos`
/// sub-second nanoseconds: the non-zero components among seconds,
/// milliseconds and microseconds, separated by `" : "`, microseconds shown
/// only when milliseconds are zero, and `"0µs"` when nothing is shown.
pub open spec fn elapsed_str(secs: u64, nanos: u32) -> Seq<char> {
    let millis = nanos as nat / 1_000_000;
    let micros = (nanos as nat % 1_000_000) / 1_000;
    let show_s = secs > 0;
    let show_ms = millis > 0;
    let show_us = micros > 0 && millis == 0;
    if show_s && show_ms {
        secs_part(secs as nat) + part_sep() + millis_part(millis)
    } else if show_s && show_us {
        secs_part(secs as nat) + part_sep() + micros_part(micros)
    } else if show_s {
        secs_part(secs as nat)
    } else if show_ms {
        millis_part(millis)
    } else if show_us {
        micros_part(micros)
    } else {
        seq!['0', 'µ', 's']
    }
}

/// The one-character string for decimal digit `d`.
fn digit_str(d: u64) -> (r: &'static str)
    requires
        d < 10,
    ensures
        r@ == seq![digit_char(d as nat)],
{
    proof {
        reveal_strlit("0");
        reveal_strlit("1");
        reveal_strlit("2");
        reveal_strlit("3");
        reveal_strlit("4");
        reveal_strlit("5");
        reveal_strlit("6");
        reveal_strlit("7");
        reveal_strlit("8");
        reveal_strlit("9");
    }
    let r = if d == 0 {
        "0"
    } else if d == 1 {
        "1"
    } else if d == 2 {
        "2"
    } else if d == 3 {
        "3"
    } else if d == 4 {
        "4"
    } else if d == 5 {
        "5"
    } else if d == 6 {
        "6"
    } else if d == 7 {
        "7"
    } else if d == 8 {
        "8"
    } else {
        "9"
    };
    proof {
        assert(r@ =~= seq![digit_char(d as nat)]);
    }
    r
}

/// Renders `n` in decimal, no leading zeros.
pub fn u64_to_dec(n: u64) -> (r: String)
    ensures
        r@ == dec_digits(n as nat),
    decreases n,
{
    if n < 10 {
        let mut s = String::new();
        s.append(digit_str(n));
        proof {
            assert(s@ =~= dec_digits(n as nat));
        }
        s
    } else {
        let mut s = u64_to_dec(n / 10);
        s.append(digit_str(n % 10));
        proof {
            assert(s@ =~= dec_digits(n as nat));
        }
        s
    }
}

/// Renders the elapsed-time report for `secs` whole seconds plus `nanos`
/// sub-second nanoseconds, exactly as `elapsed_str` describes.
pub fn format_elapsed(secs: u64, nanos: u32) -> (r: String)
    requires
        nanos < 1_000_000_000,
    ensures
        r@ == elapsed_str(secs, nanos),
{
    proof {
        reveal_strlit("s");
        reveal_strlit("ms");
        reveal_strlit("µs");
        reveal_strlit(" : ");
        reveal_strlit("0µs");
    }
    let millis: u32 = nanos / 1_000_000;
    let micros: u32 = (nanos % 1_000_000) / 1_000;
    let mut s = String::new();
    if secs > 0 {
        let d = u64_to_dec(secs);
        s.append(d.as_str());
        s.append("s");
        proof {
            assert(s@ =~= secs_part(secs as nat));
        }
    }
    if millis > 0 {
        if secs > 0 {
            s.append(" : ");
        }
        let d = u64_to_dec(millis as u64);
        s.append(d.as_str());
        s.append("ms");
    }
    if micros > 0 && millis == 0 {
        if secs > 0 {
            s.append(" : ");
        }
        let d = u64_to_dec(micros as u64);
        s.append(d.as_str());
        s.append("µs");
    }
    if secs == 0 && millis == 0 && micros == 0 {
        s.append("0µs");
    }
    proof {
        assert(s@ =~= elapsed_str(secs, nanos));
    }
    s
}

} // verus!
