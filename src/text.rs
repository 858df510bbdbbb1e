use vstd::prelude::*;

verus! {

/// The character of a decimal digit `d` (`0 <= d < 10`).
pub open spec fn digit_char(d: int) -> char {
    if d == 0 {
        '0'
    } else if d == 1 {
        '1'
    } else if d == 2 {
        '2'
    } else if d == 3 {
        '3'
    } else if d == 4 {
        '4'
    } else if d == 5 {
        '5'
    } else if d == 6 {
        '6'
    } else if d == 7 {
        '7'
    } else if d == 8 {
        '8'
    } else {
        '9'
    }
}

/// Decimal text of a natural number, without leading zeros.
pub open spec fn decimal(n: nat) -> Seq<char>
    decreases n,
{
    if n < 10 {
        seq![digit_char(n as int)]
    } else {
        decimal(n / 10).push(digit_char((n % 10) as int))
    }
}

/// Decimal text of an integer, with a leading `-` when it is negative.
pub open spec fn signed_decimal(v: int) -> Seq<char> {
    if v < 0 {
        seq!['-'] + decimal((-v) as nat)
    } else {
        decimal(v as nat)
    }
}

fn digit_str(d: u64) -> (r: &'static str)
    requires
        d < 10,
    ensures
        r@ == seq![digit_char(d as int)],
{
    if d == 0 {
        proof { reveal_strlit("0"); }
        "0"
    } else if d == 1 {
        proof { reveal_strlit("1"); }
        "1"
    } else if d == 2 {
        proof { reveal_strlit("2"); }
        "2"
    } else if d == 3 {
        proof { reveal_strlit("3"); }
        "3"
    } else if d == 4 {
        proof { reveal_strlit("4"); }
        "4"
    } else if d == 5 {
        proof { reveal_strlit("5"); }
        "5"
    } else if d == 6 {
        proof { reveal_strlit("6"); }
        "6"
    } else if d == 7 {
        proof { reveal_strlit("7"); }
        "7"
    } else if d == 8 {
        proof { reveal_strlit("8"); }
        "8"
    } else {
        proof { reveal_strlit("9"); }
        "9"
    }
}

/// Appends the decimal text of `n` to `s`.
pub fn push_decimal(s: &mut String, n: u64)
    ensures
        final(s)@ == old(s)@ + decimal(n as nat),
    decreases n,
{
    if n >= 10 {
        push_decimal(s, n / 10);
    }
    s.append(digit_str(n % 10));
    proof {
        if n >= 10 {
            assert(old(s)@ + decimal(n as nat) =~= old(s)@ + decimal((n / 10) as nat) + seq![
                digit_char((n % 10) as int),
            ]);
        }
    }
}

/// Appends the decimal text of `v`, signed, to `s`.
pub fn push_signed_decimal(s: &mut String, v: i64)
    ensures
        final(s)@ == old(s)@ + signed_decimal(v as int),
{
    if v < 0 {
        proof { reveal_strlit("-"); }
        s.append("-");
        let magnitude: u64 = ((-(v + 1)) as u64) + 1;
        push_decimal(s, magnitude);
        assert(s@ =~= old(s)@ + signed_decimal(v as int));
    } else {
        push_decimal(s, v as u64);
    }
}

/// Bytes in one megabyte.
pub const BYTES_PER_MB: u64 = 1048576;

/// `|v| / BYTES_PER_MB` in hundredths, rounded to the nearest hundredth,
/// ties to the even one.
pub open spec fn mb_hundredths(v: int) -> nat {
    let n = (if v < 0 { -v } else { v }) * 100;
    let q = n / (BYTES_PER_MB as int);
    let r = n % (BYTES_PER_MB as int);
    let half = (BYTES_PER_MB as int) / 2;
    if r > half || (r == half && q % 2 == 1) {
        (q + 1) as nat
    } else {
        q as nat
    }
}

/// A byte count in megabytes with two decimals: `-` when the count is
/// negative, the whole megabytes, a point, and two digits.
pub open spec fn megabytes_text(v: int) -> Seq<char> {
    let h = mb_hundredths(v);
    let sign = if v < 0 { seq!['-'] } else { Seq::<char>::empty() };
    sign + decimal(h / 100) + seq!['.', digit_char(((h % 100) / 10) as int), digit_char(
        (h % 10) as int,
    )]
}

/// Appends a byte count in megabytes, with two decimals, to `s`.
pub fn push_megabytes(s: &mut String, v: i32)
    ensures
        final(s)@ == old(s)@ + megabytes_text(v as int),
{
    let magnitude: u64 = if v < 0 {
        (-(v as i64)) as u64
    } else {
        v as u64
    };
    let n: u64 = magnitude * 100;
    let mut q: u64 = n / BYTES_PER_MB;
    let r: u64 = n % BYTES_PER_MB;
    let half: u64 = BYTES_PER_MB / 2;
    if r > half || (r == half && q % 2 == 1) {
        q = q + 1;
    }
    assert(q == mb_hundredths(v as int));
    if v < 0 {
        proof { reveal_strlit("-"); }
        s.append("-");
    }
    push_decimal(s, q / 100);
    proof { reveal_strlit("."); }
    s.append(".");
    s.append(digit_str((q % 100) / 10));
    s.append(digit_str(q % 10));
    assert(s@ =~= old(s)@ + megabytes_text(v as int));
}

} // verus!
