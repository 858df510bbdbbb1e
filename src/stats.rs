use vstd::prelude::*;

verus! {

/// Largest value of a legacy (signed 32-bit) field.
pub const INT_MAX: i32 = 2147483647;

/// The mathematical clamp of `v` into `[0, INT_MAX]`.
pub open spec fn clamp_spec(v: int) -> int {
    if v < 0 {
        0
    } else if v > INT_MAX as int {
        INT_MAX as int
    } else {
        v
    }
}

/// Clamps a signed 64-bit candidate into the range of a legacy field:
/// negative values become 0, values above `INT_MAX` become `INT_MAX`.
pub fn clamp_to_int_max(value: i64) -> (r: i32)
    ensures
        r as int == clamp_spec(value as int),
        0 <= r,
{
    if value > INT_MAX as i64 {
        INT_MAX
    } else if value < 0 {
        0
    } else {
        value as i32
    }
}

/// The legacy allocator statistics record: ten signed 32-bit fields, in the
/// order and widths of the platform's legacy introspection call.
#[derive(Debug, Clone, Copy, PartialEq, Eq, Structural)]
pub struct MallinfoC {
    pub arena: i32,
    pub ordblks: i32,
    pub smblks: i32,
    pub hblks: i32,
    pub hblkhd: i32,
    pub usmblks: i32,
    pub fsmblks: i32,
    pub uordblks: i32,
    pub fordblks: i32,
    pub keepcost: i32,
}

/// The wide allocator statistics record: the same ten fields as unsigned
/// machine words.
#[derive(Debug, Clone, Copy, PartialEq, Eq, Structural)]
pub struct Mallinfo2C {
    pub arena: usize,
    pub ordblks: usize,
    pub smblks: usize,
    pub hblks: usize,
    pub hblkhd: usize,
    pub usmblks: usize,
    pub fsmblks: usize,
    pub uordblks: usize,
    pub fordblks: usize,
    pub keepcost: usize,
}

/// A legacy record that the host can consume safely: no field is negative,
/// `arena + hblkhd` fits a legacy field, and so does `uordblks`.
pub open spec fn legacy_is_safe(m: MallinfoC) -> bool {
    &&& 0 <= m.arena &&& 0 <= m.ordblks &&& 0 <= m.smblks &&& 0 <= m.hblks
    &&& 0 <= m.hblkhd &&& 0 <= m.usmblks &&& 0 <= m.fsmblks &&& 0 <= m.uordblks
    &&& 0 <= m.fordblks &&& 0 <= m.keepcost
    &&& m.arena + m.hblkhd <= INT_MAX as int
    &&& m.uordblks <= INT_MAX as int
}

/// `part` scaled by `INT_MAX / sum`, rounded down.
pub open spec fn scale_to_int_max(part: int, sum: int) -> int {
    part * (INT_MAX as int) / sum
}

/// Sum of `arena` and `hblkhd` after each has been clamped on its own.
pub open spec fn clamped_pair_sum(w: Mallinfo2C) -> int {
    clamp_spec(w.arena as int) + clamp_spec(w.hblkhd as int)
}

/// Whether the clamped `arena` and `hblkhd` still sum past `INT_MAX`, so that
/// both have to be scaled down.
pub open spec fn pair_needs_rescale(w: Mallinfo2C) -> bool {
    clamped_pair_sum(w) > INT_MAX as int
}

/// The legacy value of one member of the `arena` / `hblkhd` pair: clamped,
/// then scaled proportionally when the pair would overflow.
pub open spec fn pair_member_spec(w: Mallinfo2C, v: usize) -> int {
    if pair_needs_rescale(w) {
        scale_to_int_max(clamp_spec(v as int), clamped_pair_sum(w))
    } else {
        clamp_spec(v as int)
    }
}

/// The safe legacy view of a wide record.
pub open spec fn legacy_spec(w: Mallinfo2C) -> MallinfoC {
    MallinfoC {
        arena: pair_member_spec(w, w.arena) as i32,
        ordblks: clamp_spec(w.ordblks as int) as i32,
        smblks: clamp_spec(w.smblks as int) as i32,
        hblks: clamp_spec(w.hblks as int) as i32,
        hblkhd: pair_member_spec(w, w.hblkhd) as i32,
        usmblks: clamp_spec(w.usmblks as int) as i32,
        fsmblks: clamp_spec(w.fsmblks as int) as i32,
        uordblks: clamp_spec(w.uordblks as int) as i32,
        fordblks: clamp_spec(w.fordblks as int) as i32,
        keepcost: clamp_spec(w.keepcost as int) as i32,
    }
}

/// A wide field as a signed 64-bit candidate; values past `i64::MAX` saturate.
fn widen(v: usize) -> (r: i64)
    ensures
        r as int == if v as int > i64::MAX as int { i64::MAX as int } else { v as int },
{
    if v as u64 > i64::MAX as u64 {
        i64::MAX
    } else {
        v as i64
    }
}

/// Clamps a wide field into the range of a legacy field.
fn clamp_wide(v: usize) -> (r: i32)
    ensures
        r as int == clamp_spec(v as int),
{
    clamp_to_int_max(widen(v))
}

/// Whether the clamped `arena` and `hblkhd` of `wide` sum past `INT_MAX`, so
/// that the legacy view scales them down.
pub fn pair_rescale_needed(wide: &Mallinfo2C) -> (r: bool)
    ensures
        r == pair_needs_rescale(*wide),
{
    clamp_wide(wide.arena) as i64 + clamp_wide(wide.hblkhd) as i64 > INT_MAX as i64
}

proof fn lemma_scale_bounds(part: int, other: int)
    requires
        0 <= part <= INT_MAX as int,
        0 <= other <= INT_MAX as int,
        part + other > INT_MAX as int,
    ensures
        0 <= scale_to_int_max(part, part + other) <= part,
        scale_to_int_max(part, part + other) + scale_to_int_max(other, part + other)
            <= INT_MAX as int,
{
    let m = INT_MAX as int;
    let s = part + other;
    let a = part * m / s;
    let b = other * m / s;
    assert(0 <= part * m) by (nonlinear_arith)
        requires 0 <= part, 0 <= m;
    assert(0 <= other * m) by (nonlinear_arith)
        requires 0 <= other, 0 <= m;
    assert(a * s <= part * m) by (nonlinear_arith)
        requires a == part * m / s, s > 0, part * m >= 0;
    assert(b * s <= other * m) by (nonlinear_arith)
        requires b == other * m / s, s > 0, other * m >= 0;
    assert(0 <= a) by (nonlinear_arith)
        requires a == part * m / s, s > 0, part * m >= 0;
    assert(0 <= b) by (nonlinear_arith)
        requires b == other * m / s, s > 0, other * m >= 0;
    assert((a + b) * s <= m * s) by (nonlinear_arith)
        requires a * s <= part * m, b * s <= other * m, s == part + other;
    assert(a + b <= m) by (nonlinear_arith)
        requires (a + b) * s <= m * s, s > 0;
    assert(a <= part) by (nonlinear_arith)
        requires a * s <= part * m, s > m, m > 0, part >= 0, a >= 0;
}

/// Computes the safe legacy view of a wide record: every field is clamped
/// into `[0, INT_MAX]`, and when the clamped `arena` and `hblkhd` still sum
/// past `INT_MAX` both are scaled down by `INT_MAX / sum`, rounding down, so
/// that their ratio is kept and their sum fits.
pub fn legacy_from_wide(wide: &Mallinfo2C) -> (r: MallinfoC)
    ensures
        r == legacy_spec(*wide),
        legacy_is_safe(r),
{
    let mut arena = clamp_wide(wide.arena);
    let mut hblkhd = clamp_wide(wide.hblkhd);
    let sum: u64 = arena as u64 + hblkhd as u64;
    if sum > INT_MAX as u64 {
        proof {
            lemma_scale_bounds(arena as int, hblkhd as int);
            lemma_scale_bounds(hblkhd as int, arena as int);
        }
        let m: u64 = INT_MAX as u64;
        assert((arena as u64) * m <= m * m) by (nonlinear_arith)
            requires arena as u64 <= m;
        assert((hblkhd as u64) * m <= m * m) by (nonlinear_arith)
            requires hblkhd as u64 <= m;
        arena = ((arena as u64) * m / sum) as i32;
        hblkhd = ((hblkhd as u64) * m / sum) as i32;
    }
    MallinfoC {
        arena,
        ordblks: clamp_wide(wide.ordblks),
        smblks: clamp_wide(wide.smblks),
        hblks: clamp_wide(wide.hblks),
        hblkhd,
        usmblks: clamp_wide(wide.usmblks),
        fsmblks: clamp_wide(wide.fsmblks),
        uordblks: clamp_wide(wide.uordblks),
        fordblks: clamp_wide(wide.fordblks),
        keepcost: clamp_wide(wide.keepcost),
    }
}

/// Every field of the legacy view lies in `[0, INT_MAX]`, whatever the wide
/// record holds.
pub proof fn lemma_legacy_fields_in_range(wide: Mallinfo2C)
    ensures
        ({
            let out = legacy_spec(wide);
            &&& 0 <= out.arena <= INT_MAX &&& 0 <= out.ordblks <= INT_MAX
            &&& 0 <= out.smblks <= INT_MAX &&& 0 <= out.hblks <= INT_MAX
            &&& 0 <= out.hblkhd <= INT_MAX &&& 0 <= out.usmblks <= INT_MAX
            &&& 0 <= out.fsmblks <= INT_MAX &&& 0 <= out.uordblks <= INT_MAX
            &&& 0 <= out.fordblks <= INT_MAX &&& 0 <= out.keepcost <= INT_MAX
        }),
{
    lemma_pair_members(wide);
}

/// The legacy `arena` and `hblkhd` of any wide record sum to at most
/// `INT_MAX`.
pub proof fn lemma_legacy_pair_sum_fits(wide: Mallinfo2C)
    ensures
        legacy_spec(wide).arena + legacy_spec(wide).hblkhd <= INT_MAX as int,
{
    lemma_pair_members(wide);
}

/// When the wide `arena` and `hblkhd` already sum to at most `INT_MAX`, the
/// legacy view carries both unchanged.
pub proof fn lemma_legacy_pair_kept_when_it_fits(wide: Mallinfo2C)
    requires
        wide.arena + wide.hblkhd <= INT_MAX as int,
    ensures
        legacy_spec(wide).arena as int == wide.arena as int,
        legacy_spec(wide).hblkhd as int == wide.hblkhd as int,
{
}

/// When `arena` and `hblkhd` each fit a legacy field but their sum does not,
/// the legacy view scales both by `INT_MAX / sum`: each result is the exact
/// proportional value rounded down, and the two results keep the wide ratio
/// up to that rounding, their cross products differing by less than the
/// larger of the two wide values.
pub proof fn lemma_rescale_keeps_ratio(wide: Mallinfo2C)
    requires
        wide.arena <= INT_MAX as int,
        wide.hblkhd <= INT_MAX as int,
        wide.arena + wide.hblkhd > INT_MAX as int,
    ensures
        ({
            let out = legacy_spec(wide);
            let (a, h) = (wide.arena as int, wide.hblkhd as int);
            let s = a + h;
            let m = INT_MAX as int;
            let big = if a >= h { a } else { h };
            &&& out.arena * s <= a * m < (out.arena + 1) * s
            &&& out.hblkhd * s <= h * m < (out.hblkhd + 1) * s
            &&& -big < out.arena * h - out.hblkhd * a < big
        }),
{
    let out = legacy_spec(wide);
    let (a, h) = (wide.arena as int, wide.hblkhd as int);
    let s = a + h;
    let m = INT_MAX as int;
    let big = if a >= h { a } else { h };
    lemma_pair_members(wide);
    let oa = out.arena as int;
    let oh = out.hblkhd as int;
    assert(oa == a * m / s);
    assert(oh == h * m / s);
    let ra = a * m - oa * s;
    let rh = h * m - oh * s;
    assert(0 <= ra < s) by (nonlinear_arith)
        requires oa == a * m / s, ra == a * m - oa * s, s > 0;
    assert(0 <= rh < s) by (nonlinear_arith)
        requires oh == h * m / s, rh == h * m - oh * s, s > 0;
    assert(oa * s <= a * m < (oa + 1) * s) by (nonlinear_arith)
        requires 0 <= ra < s, ra == a * m - oa * s;
    assert(oh * s <= h * m < (oh + 1) * s) by (nonlinear_arith)
        requires 0 <= rh < s, rh == h * m - oh * s;
    assert(s * (oa * h - oh * a) == rh * a - ra * h) by (nonlinear_arith)
        requires ra == a * m - oa * s, rh == h * m - oh * s;
    assert(-(s * big) < rh * a - ra * h < s * big) by (nonlinear_arith)
        requires 0 <= ra < s, 0 <= rh < s, 0 <= a <= big, 0 <= h <= big, big > 0;
    assert(-big < oa * h - oh * a < big) by (nonlinear_arith)
        requires s * (oa * h - oh * a) == rh * a - ra * h, -(s * big) < rh * a - ra * h < s * big,
            s > 0;
}

proof fn lemma_pair_members(wide: Mallinfo2C)
    ensures
        0 <= pair_member_spec(wide, wide.arena) <= INT_MAX as int,
        0 <= pair_member_spec(wide, wide.hblkhd) <= INT_MAX as int,
        pair_member_spec(wide, wide.arena) + pair_member_spec(wide, wide.hblkhd)
            <= INT_MAX as int,
{
    if pair_needs_rescale(wide) {
        let a = clamp_spec(wide.arena as int);
        let h = clamp_spec(wide.hblkhd as int);
        lemma_scale_bounds(a, h);
        lemma_scale_bounds(h, a);
    }
}

} // verus!
