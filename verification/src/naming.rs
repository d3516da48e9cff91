//! Names of snapshot files.

use vstd::prelude::*;
use vstd::string::StringExecFns;

verus! {

/// The character that writes the digit `d`.
pub open spec fn digit_char(d: int) -> char {
    if d == 0 {
        '0'
    } else if d == 1 {
        '1'
    } else if d == 2 {
        '2'
    } else if d == 3 {
        '3'
    } else if d == 4 {
        '4'
    } else if d == 5 {
        '5'
    } else if d == 6 {
        '6'
    } else if d == 7 {
        '7'
    } else if d == 8 {
        '8'
    } else {
        '9'
    }
}

/// The decimal digits of `n`, most significant first, without leading zeros.
pub open spec fn digits(n: nat) -> Seq<char>
    decreases n,
{
    if n < 10 {
        seq![digit_char(n as int)]
    } else {
        digits(n / 10).push(digit_char((n % 10) as int))
    }
}

/// The decimal writing of an integer: a minus sign for a negative number,
/// then the digits of its magnitude.
pub open spec fn decimal(i: int) -> Seq<char> {
    if i < 0 {
        seq!['-'] + digits((-i) as nat)
    } else {
        digits(i as nat)
    }
}

/// What every snapshot file name ends with.
pub open spec fn snapshot_suffix() -> Seq<char> {
    "_monitors.json"@
}

/// The name of the snapshot written at Unix second `secs`.
pub open spec fn snapshot_name(secs: int) -> Seq<char> {
    decimal(secs) + snapshot_suffix()
}

/// The one-character text for the digit `d`.
fn digit_text(d: u64) -> (t: &'static str)
    requires
        d < 10,
    ensures
        t@ == seq![digit_char(d as int)],
{
    proof {
        reveal_strlit("0");
        reveal_strlit("1");
        reveal_strlit("2");
        reveal_strlit("3");
        reveal_strlit("4");
        reveal_strlit("5");
        reveal_strlit("6");
        reveal_strlit("7");
        reveal_strlit("8");
        reveal_strlit("9");
    }
    if d == 0 {
        "0"
    } else if d == 1 {
        "1"
    } else if d == 2 {
        "2"
    } else if d == 3 {
        "3"
    } else if d == 4 {
        "4"
    } else if d == 5 {
        "5"
    } else if d == 6 {
        "6"
    } else if d == 7 {
        "7"
    } else if d == 8 {
        "8"
    } else {
        "9"
    }
}

/// Appends the decimal digits of `n` to `out`.
fn push_digits(out: &mut String, n: u64)
    ensures
        final(out)@ == old(out)@ + digits(n as nat),
    decreases n,
{
    if n >= 10 {
        push_digits(out, n / 10);
    }
    out.append(digit_text(n % 10));
}

/// The name of the file that holds the snapshot written at Unix second
/// `secs`: the second count in decimal, then `_monitors.json`.
pub fn snapshot_file_name(secs: i64) -> (name: String)
    ensures
        name@ == snapshot_name(secs as int),
{
    let mut name = String::new();
    if secs < 0 {
        proof {
            reveal_strlit("-");
        }
        name.append("-");
        // The magnitude of `i64::MIN` does not fit an `i64`: negate one short of it.
        let magnitude: u64 = (-(secs + 1)) as u64 + 1;
        push_digits(&mut name, magnitude);
    } else {
        push_digits(&mut name, secs as u64);
    }
    name.append("_monitors.json");
    name
}

} // verus!
