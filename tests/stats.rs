use mallinfo_override::shim::{safe_mallinfo, PairWarning, ShimLog};
use mallinfo_override::stats::{
    clamp_to_int_max, legacy_from_wide, pair_rescale_needed, Mallinfo2C, MallinfoC, INT_MAX,
};

fn wide(arena: usize, hblkhd: usize, uordblks: usize) -> Mallinfo2C {
    Mallinfo2C {
        arena,
        ordblks: 0,
        smblks: 0,
        hblks: 0,
        hblkhd,
        usmblks: 0,
        fsmblks: 0,
        uordblks,
        fordblks: 0,
        keepcost: 0,
    }
}

fn fields(m: &MallinfoC) -> [i32; 10] {
    [
        m.arena, m.ordblks, m.smblks, m.hblks, m.hblkhd, m.usmblks, m.fsmblks, m.uordblks,
        m.fordblks, m.keepcost,
    ]
}

#[test]
fn clamp_boundaries() {
    assert_eq!(clamp_to_int_max(-1), 0);
    assert_eq!(clamp_to_int_max(0), 0);
    assert_eq!(clamp_to_int_max(i32::MAX as i64), i32::MAX);
    assert_eq!(clamp_to_int_max(i32::MAX as i64 + 1), i32::MAX);
    assert_eq!(clamp_to_int_max(i64::MIN), 0);
    assert_eq!(clamp_to_int_max(i64::MAX), i32::MAX);
    assert_eq!(clamp_to_int_max(12345), 12345);
}

#[test]
fn scenario_pair_rescaled_once() {
    let w = wide(3_000_000_000, 500_000_000, 100);
    let mut log = ShimLog::new();
    let (out, warnings) = safe_mallinfo(&w, &mut log);
    // arena is first clamped to INT_MAX, then both are scaled by INT_MAX / (INT_MAX + 500_000_000)
    assert_eq!(out.arena, 1_741_912_936);
    assert_eq!(out.hblkhd, 405_570_710);
    assert!(out.arena as i64 + out.hblkhd as i64 <= INT_MAX as i64);
    assert_eq!(out.uordblks, 100);
    assert_eq!(
        warnings.pair,
        Some(PairWarning { arena: 1_741_912_936, hblkhd: 405_570_710, sum: 2_147_483_646 })
    );
    assert_eq!(warnings.uordblks_raw, None);
    assert!(log.pair_logged);

    let (again, warnings) = safe_mallinfo(&w, &mut log);
    assert_eq!(again, out);
    assert_eq!(warnings.pair, None);
    assert_eq!(warnings.uordblks_raw, None);
}

#[test]
fn scenario_uordblks_clamped() {
    let w = wide(0, 0, 5_000_000_000);
    let mut log = ShimLog::new();
    let (out, warnings) = safe_mallinfo(&w, &mut log);
    assert_eq!(out.uordblks, INT_MAX);
    assert_eq!(warnings.uordblks_raw, Some(5_000_000_000));
    assert_eq!(warnings.pair, None);
    assert!(log.uordblks_logged);
    assert!(!log.pair_logged);
    let (_, warnings) = safe_mallinfo(&w, &mut log);
    assert_eq!(warnings.uordblks_raw, None);
}

#[test]
fn scenario_small_values_kept() {
    let w = wide(100, 200, 50);
    let mut log = ShimLog::new();
    let (out, warnings) = safe_mallinfo(&w, &mut log);
    assert_eq!(
        out,
        MallinfoC {
            arena: 100,
            ordblks: 0,
            smblks: 0,
            hblks: 0,
            hblkhd: 200,
            usmblks: 0,
            fsmblks: 0,
            uordblks: 50,
            fordblks: 0,
            keepcost: 0,
        }
    );
    assert_eq!(warnings.pair, None);
    assert_eq!(warnings.uordblks_raw, None);
    assert_eq!(log, ShimLog::new());
}

#[test]
fn every_field_in_range_for_huge_input() {
    let w = Mallinfo2C {
        arena: usize::MAX,
        ordblks: usize::MAX,
        smblks: 1 << 40,
        hblks: i32::MAX as usize + 1,
        hblkhd: usize::MAX,
        usmblks: 7,
        fsmblks: usize::MAX - 1,
        uordblks: usize::MAX,
        fordblks: 1 << 63,
        keepcost: i32::MAX as usize,
    };
    let out = legacy_from_wide(&w);
    for f in fields(&out) {
        assert!(f >= 0);
    }
    assert_eq!(out.ordblks, INT_MAX);
    assert_eq!(out.smblks, INT_MAX);
    assert_eq!(out.hblks, INT_MAX);
    assert_eq!(out.usmblks, 7);
    assert_eq!(out.fsmblks, INT_MAX);
    assert_eq!(out.uordblks, INT_MAX);
    assert_eq!(out.fordblks, INT_MAX);
    assert_eq!(out.keepcost, INT_MAX);
    // two equal clamped halves: each becomes INT_MAX / 2, rounded down
    assert_eq!(out.arena, 1_073_741_823);
    assert_eq!(out.hblkhd, 1_073_741_823);
}

#[test]
fn pair_sum_fits_at_the_edge() {
    let w = wide(i32::MAX as usize, 1, 0);
    assert!(pair_rescale_needed(&w));
    let out = legacy_from_wide(&w);
    assert!(out.arena as i64 + out.hblkhd as i64 <= INT_MAX as i64);
    assert_eq!(out.arena, 2_147_483_646);
    assert_eq!(out.hblkhd, 0);

    let fits = wide(2_000_000_000, 147_483_647, 0);
    assert!(!pair_rescale_needed(&fits));
    let out = legacy_from_wide(&fits);
    assert_eq!(out.arena, 2_000_000_000);
    assert_eq!(out.hblkhd, 147_483_647);
}

#[test]
fn one_clamped_field_alone_is_not_rescaled() {
    let w = wide(5_000_000_000, 0, 0);
    assert!(!pair_rescale_needed(&w));
    let out = legacy_from_wide(&w);
    assert_eq!(out.arena, INT_MAX);
    assert_eq!(out.hblkhd, 0);
}

#[test]
fn rescale_keeps_ratio() {
    let (a, h) = (2_000_000_000usize, 1_000_000_000usize);
    let out = legacy_from_wide(&wide(a, h, 0));
    assert_eq!(out.arena, 1_431_655_764);
    assert_eq!(out.hblkhd, 715_827_882);
    let cross = out.arena as i128 * h as i128 - out.hblkhd as i128 * a as i128;
    assert!(cross.abs() < a as i128);
}
