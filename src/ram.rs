use vstd::prelude::*;
use crate::scan::{ascii_digit, chars_of, digits_value, is_digit, trim, trim_range};

verus! {

/// Why a memory size text was refused.
#[derive(Debug, Clone, Copy, PartialEq, Eq, Structural)]
pub enum MemorySizeError {
    /// The text does not start with a digit.
    MissingNumber,
    /// The number does not fit a `usize`.
    NumberTooLarge,
    /// The text after the number is no known unit.
    InvalidUnit,
    /// The size in bytes does not fit a `usize`.
    SizeTooLarge,
}

/// How many ASCII digits `s` starts with.
pub open spec fn digit_prefix_len(s: Seq<char>) -> nat
    decreases s.len(),
{
    if s.len() > 0 && is_digit(s[0]) {
        1 + digit_prefix_len(s.drop_first())
    } else {
        0
    }
}

/// `c` is the letter `upper` in either case.
pub open spec fn is_letter(c: char, upper: char, lower: char) -> bool {
    c == upper || c == lower
}

/// Bytes in one of the unit `u`, in any case: nothing or `B` for bytes,
/// `K`/`KB`, `M`/`MB` and `G`/`GB` for powers of 1024.
pub open spec fn unit_bytes(u: Seq<char>) -> Option<nat> {
    let with_b = u.len() == 2 && is_letter(u[1], 'B', 'b');
    if u.len() == 0 || (u.len() == 1 && is_letter(u[0], 'B', 'b')) {
        Some(1)
    } else if (u.len() == 1 || with_b) && is_letter(u[0], 'K', 'k') {
        Some(1024)
    } else if (u.len() == 1 || with_b) && is_letter(u[0], 'M', 'm') {
        Some(1048576)
    } else if (u.len() == 1 || with_b) && is_letter(u[0], 'G', 'g') {
        Some(1073741824)
    } else {
        None
    }
}

/// The bytes that a memory size text such as `100M` or ` 2 gb ` stands for.
pub open spec fn memory_size_spec(s: Seq<char>) -> Result<usize, MemorySizeError> {
    let t = trim(s);
    let k = digit_prefix_len(t) as int;
    let n = digits_value(t.take(k));
    if k == 0 {
        Err(MemorySizeError::MissingNumber)
    } else if n > usize::MAX as int {
        Err(MemorySizeError::NumberTooLarge)
    } else {
        match unit_bytes(trim(t.skip(k))) {
            None => Err(MemorySizeError::InvalidUnit),
            Some(m) => if n * m > usize::MAX as int {
                Err(MemorySizeError::SizeTooLarge)
            } else {
                Ok((n * m) as usize)
            },
        }
    }
}

fn unit_bytes_of(cs: &Vec<char>, lo: usize, hi: usize) -> (r: Option<usize>)
    requires
        lo <= hi <= cs@.len(),
    ensures
        match unit_bytes(cs@.subrange(lo as int, hi as int)) {
            Some(m) => r == Some(m as usize),
            None => r is None,
        },
{
    let len = hi - lo;
    let with_b = len == 2 && (cs[lo + 1] == 'B' || cs[lo + 1] == 'b');
    if len == 0 || (len == 1 && (cs[lo] == 'B' || cs[lo] == 'b')) {
        Some(1)
    } else if (len == 1 || with_b) && (cs[lo] == 'K' || cs[lo] == 'k') {
        Some(1024)
    } else if (len == 1 || with_b) && (cs[lo] == 'M' || cs[lo] == 'm') {
        Some(1048576)
    } else if (len == 1 || with_b) && (cs[lo] == 'G' || cs[lo] == 'g') {
        Some(1073741824)
    } else {
        None
    }
}

/// Parses a memory size: a number of bytes followed by an optional unit
/// (`B`, `K`/`KB`, `M`/`MB`, `G`/`GB`, in any case, powers of 1024), with
/// white space allowed around the whole and before the unit.
pub fn parse_memory_size(input: &str) -> (r: Result<usize, MemorySizeError>)
    ensures
        r == memory_size_spec(input@),
{
    let cs = chars_of(input);
    let (lo, hi) = trim_range(&cs, 0, cs.len());
    assert(cs@.subrange(0, cs@.len() as int) =~= input@);
    let ghost t = cs@.subrange(lo as int, hi as int);
    let mut j: usize = lo;
    let mut num: usize = 0;
    let mut too_large = false;
    while j < hi && ascii_digit(cs[j])
        invariant
            lo <= j <= hi <= cs@.len(),
            t == cs@.subrange(lo as int, hi as int),
            digit_prefix_len(t) == (j - lo) + digit_prefix_len(cs@.subrange(j as int, hi as int)),
            !too_large ==> num as int == digits_value(t.take(j - lo)),
            too_large ==> digits_value(t.take(j - lo)) > usize::MAX as int,
        decreases hi - j,
    {
        let ghost prev = digits_value(t.take(j - lo));
        let d: usize = (cs[j] as u32 - '0' as u32) as usize;
        assert(cs@.subrange(j as int, hi as int).drop_first() =~= cs@.subrange(j + 1, hi as int));
        assert(t.take(j + 1 - lo).drop_last() =~= t.take(j - lo));
        assert(t.take(j + 1 - lo).last() == cs@[j as int]);
        assert(digits_value(t.take(j + 1 - lo)) == prev * 10 + d);
        if !too_large {
            match num.checked_mul(10) {
                Some(m) => match m.checked_add(d) {
                    Some(v) => {
                        num = v;
                    },
                    None => {
                        too_large = true;
                    },
                },
                None => {
                    too_large = true;
                },
            }
        } else {
            assert(prev * 10 + d > usize::MAX as int) by (nonlinear_arith)
                requires prev > usize::MAX as int, d >= 0;
        }
        j = j + 1;
    }
    assert(digit_prefix_len(cs@.subrange(j as int, hi as int)) == 0);
    let k = j - lo;
    if k == 0 {
        return Err(MemorySizeError::MissingNumber);
    }
    if too_large {
        return Err(MemorySizeError::NumberTooLarge);
    }
    let (ulo, uhi) = trim_range(&cs, j, hi);
    assert(t.skip(k as int) =~= cs@.subrange(j as int, hi as int));
    match unit_bytes_of(&cs, ulo, uhi) {
        None => Err(MemorySizeError::InvalidUnit),
        Some(m) => match num.checked_mul(m) {
            Some(v) => Ok(v),
            None => Err(MemorySizeError::SizeTooLarge),
        },
    }
}

} // verus!
