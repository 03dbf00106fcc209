//! Byte counts shown in kilobytes, megabytes or gigabytes, to two decimals.
use vstd::prelude::*;
use vstd::string::StringExecFns;

verus! {

/// The largest byte count that is shown in kilobytes.
pub const SIX_DIGITS: u64 = 999999;

/// The largest byte count that is shown in megabytes.
pub const NINE_DIGITS: u64 = 999999999;

/// Bytes in a kilobyte as this library counts them.
pub const ONE_KILO_BYTE: u64 = 1024;

/// The divisor of the unit that `size` bytes are shown in.
pub open spec fn unit_divisor(size: u64) -> nat {
    if size <= SIX_DIGITS {
        1024
    } else if size <= NINE_DIGITS {
        1024 * 1024
    } else {
        1024 * 1024 * 1024
    }
}

/// The suffix of the unit that `size` bytes are shown in.
pub open spec fn unit_suffix(size: u64) -> Seq<char> {
    if size <= SIX_DIGITS {
        seq!['k', 'b']
    } else if size <= NINE_DIGITS {
        seq!['M', 'B']
    } else {
        seq!['G', 'B']
    }
}

/// `n / d` counted in hundredths, rounded to the nearest hundredth; a value
/// exactly halfway goes to the even neighbour.
pub open spec fn hundredths(n: nat, d: nat) -> nat {
    let q: nat = (n * 100) / d;
    let r: nat = (n * 100) % d;
    if 2 * r > d || (2 * r == d && q % 2 == 1) {
        q + 1
    } else {
        q
    }
}

/// The character of the decimal digit `d`.
pub open spec fn digit_char(d: nat) -> char {
    if d == 0 {
        '0'
    } else if d == 1 {
        '1'
    } else if d == 2 {
        '2'
    } else if d == 3 {
        '3'
    } else if d == 4 {
        '4'
    } else if d == 5 {
        '5'
    } else if d == 6 {
        '6'
    } else if d == 7 {
        '7'
    } else if d == 8 {
        '8'
    } else {
        '9'
    }
}

/// `n` written in decimal, without leading zeros.
pub open spec fn decimal(n: nat) -> Seq<char>
    decreases n,
{
    if n < 10 {
        seq![digit_char(n)]
    } else {
        decimal(n / 10).push(digit_char(n % 10))
    }
}

/// A count of hundredths written as a number with two decimals.
pub open spec fn two_decimals(h: nat) -> Seq<char> {
    decimal(h / 100) + seq!['.', digit_char((h % 100) / 10), digit_char(h % 10)]
}

/// The text that shows `size` bytes.
pub open spec fn size_text(size: u64) -> Seq<char> {
    two_decimals(hundredths(size as nat, unit_divisor(size))) + unit_suffix(size)
}

pub(crate) fn digit_str(d: u64) -> (r: &'static str)
    requires
        d < 10,
    ensures
        r@ == seq![digit_char(d as nat)],
{
    if d == 0 {
        proof { reveal_strlit("0"); }
        "0"
    } else if d == 1 {
        proof { reveal_strlit("1"); }
        "1"
    } else if d == 2 {
        proof { reveal_strlit("2"); }
        "2"
    } else if d == 3 {
        proof { reveal_strlit("3"); }
        "3"
    } else if d == 4 {
        proof { reveal_strlit("4"); }
        "4"
    } else if d == 5 {
        proof { reveal_strlit("5"); }
        "5"
    } else if d == 6 {
        proof { reveal_strlit("6"); }
        "6"
    } else if d == 7 {
        proof { reveal_strlit("7"); }
        "7"
    } else if d == 8 {
        proof { reveal_strlit("8"); }
        "8"
    } else {
        proof { reveal_strlit("9"); }
        "9"
    }
}

/// Appends `n` in decimal to `s`.
pub fn push_decimal(s: &mut String, n: u64)
    ensures
        final(s)@ == old(s)@ + decimal(n as nat),
    decreases n,
{
    if n >= 10 {
        push_decimal(s, n / 10);
    }
    s.append(digit_str(n % 10));
    assert(final(s)@ =~= old(s)@ + decimal(n as nat));
}

/// Shows `size` bytes in the unit its magnitude selects: kilobytes up to
/// 999,999 bytes, megabytes up to 999,999,999 bytes, gigabytes above, each
/// unit 1024 times the one below, with two decimals.
pub fn calc_unit(size: u64) -> (r: String)
    ensures
        r@ == size_text(size),
{
    let kb: u128 = ONE_KILO_BYTE as u128;
    let (divisor, suffix): (u128, &str) = if size <= SIX_DIGITS {
        proof { reveal_strlit("kb"); }
        (kb, "kb")
    } else if size <= NINE_DIGITS {
        proof { reveal_strlit("MB"); }
        (kb * kb, "MB")
    } else {
        proof { reveal_strlit("GB"); }
        (kb * kb * kb, "GB")
    };
    let n: u128 = size as u128 * 100;
    let q: u128 = n / divisor;
    let rem: u128 = n % divisor;
    let h: u128 = if 2 * rem > divisor || (2 * rem == divisor && q % 2 == 1) {
        q + 1
    } else {
        q
    };
    assert(h / 100 <= u64::MAX) by (nonlinear_arith)
        requires
            h <= q + 1,
            q == n / divisor,
            n == size * 100,
            divisor >= 1024,
            size <= u64::MAX,
    ;
    let mut r = String::new();
    push_decimal(&mut r, (h / 100) as u64);
    r.append(".");
    r.append(digit_str(((h % 100) / 10) as u64));
    r.append(digit_str((h % 10) as u64));
    r.append(suffix);
    proof { reveal_strlit("."); }
    assert(r@ =~= size_text(size));
    r
}

} // verus!
