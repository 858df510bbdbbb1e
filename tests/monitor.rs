use mallinfo_override::monitor::{
    monitor_cycle, MallinfoSnapshot, MONITOR_INTERVAL_SECS, MONITOR_START_DELAY_SECS,
};
use mallinfo_override::stats::MallinfoC;
use mallinfo_override::text::{push_decimal, push_megabytes, push_signed_decimal};

fn info(arena: i32, hblkhd: i32, uordblks: i32, fordblks: i32) -> MallinfoC {
    MallinfoC {
        arena,
        ordblks: 0,
        smblks: 0,
        hblks: 0,
        hblkhd,
        usmblks: 0,
        fsmblks: 0,
        uordblks,
        fordblks,
        keepcost: 0,
    }
}

fn mb(v: i32) -> String {
    let mut s = String::new();
    push_megabytes(&mut s, v);
    s
}

#[test]
fn snapshot_keeps_its_record() {
    let m = info(1, 2, 3, 4);
    assert_eq!(MallinfoSnapshot::new(m).info, m);
}

#[test]
fn healthy_snapshot_has_no_warnings() {
    let s = MallinfoSnapshot::new(info(1000, 2000, 500, 10));
    assert!(s.check_for_wraparound().is_empty());
}

#[test]
fn negative_fields_are_reported_in_monitor_order() {
    let mut m = info(-5, -7, -2147483648, 0);
    m.keepcost = -1;
    let w = MallinfoSnapshot::new(m).check_for_wraparound();
    assert_eq!(
        w,
        vec![
            "arena is negative: -5 (integer overflow!)".to_string(),
            "uordblks is negative: -2147483648 (integer overflow!)".to_string(),
            "hblkhd is negative: -7 (integer overflow!)".to_string(),
            "keepcost is negative: -1 (integer overflow!)".to_string(),
        ]
    );
}

#[test]
fn all_four_watched_fields_come_first() {
    let m = MallinfoC {
        arena: -1,
        ordblks: -2,
        smblks: 0,
        hblks: 0,
        hblkhd: -3,
        usmblks: 0,
        fsmblks: 0,
        uordblks: -4,
        fordblks: -5,
        keepcost: 0,
    };
    let w = MallinfoSnapshot::new(m).check_for_wraparound();
    assert_eq!(
        w,
        vec![
            "arena is negative: -1 (integer overflow!)".to_string(),
            "uordblks is negative: -4 (integer overflow!)".to_string(),
            "fordblks is negative: -5 (integer overflow!)".to_string(),
            "hblkhd is negative: -3 (integer overflow!)".to_string(),
            "ordblks is negative: -2 (integer overflow!)".to_string(),
        ]
    );
    let mut both = info(-1, 0, 0, 0);
    both.hblkhd = -1;
    both.uordblks = -1;
    let w = MallinfoSnapshot::new(both).check_for_wraparound();
    assert_eq!(w[1], "uordblks is negative: -1 (integer overflow!)");
    assert_eq!(w[2], "hblkhd is negative: -1 (integer overflow!)");
}

#[test]
fn pair_sum_past_int_max_is_reported() {
    let w = MallinfoSnapshot::new(info(2_000_000_000, 200_000_000, 0, 0)).check_for_wraparound();
    assert_eq!(
        w,
        vec!["arena + hblkhd > INT_MAX (2000000000 + 200000000 > 2147483647)".to_string()]
    );
    let edge = MallinfoSnapshot::new(info(2_147_483_000, 647, 0, 0)).check_for_wraparound();
    assert!(edge.is_empty());
}

#[test]
fn readable_text_lists_every_field() {
    let m = MallinfoC {
        arena: 3_145_728,
        ordblks: 5,
        smblks: 1,
        hblks: 2,
        hblkhd: 131_072,
        usmblks: 3,
        fsmblks: 4,
        uordblks: 393_216,
        fordblks: -1_048_576,
        keepcost: 0,
    };
    assert_eq!(
        MallinfoSnapshot::new(m).format_readable(),
        "arena: 3145728 (3.00 MB)\n  ordblks: 5\n  smblks: 1\n  hblks: 2\n  hblkhd: 131072 (0.12 MB)\n  usmblks: 3\n  fsmblks: 4\n  uordblks: 393216 (0.38 MB)\n  fordblks: -1048576 (-1.00 MB)\n  keepcost: 0 (0.00 MB)"
    );
}

#[test]
fn megabytes_round_to_two_decimals() {
    assert_eq!(mb(0), "0.00");
    assert_eq!(mb(1_048_576), "1.00");
    assert_eq!(mb(2_147_483_647), "2048.00");
    assert_eq!(mb(-2_147_483_648), "-2048.00");
    assert_eq!(mb(1_572_864), "1.50");
    assert_eq!(mb(10_000), "0.01");
    assert_eq!(mb(5_000), "0.00");
    assert_eq!(mb(-1), "-0.00");
    assert_eq!(mb(131_072), "0.12");
    assert_eq!(mb(393_216), "0.38");
    assert_eq!(mb(1_000_000_000), "953.67");
    // the same figures as the standard float formatting
    for v in [0, 1, 131_072, 393_216, 1_000_000_000, -5_000_000, 123_456_789, i32::MAX, i32::MIN] {
        assert_eq!(mb(v), format!("{:.2}", v as f64 / 1_048_576.0));
    }
}

#[test]
fn decimal_text() {
    let mut s = String::from("n=");
    push_decimal(&mut s, 0);
    push_decimal(&mut s, 9);
    push_decimal(&mut s, 10);
    push_decimal(&mut s, u64::MAX);
    assert_eq!(s, "n=091018446744073709551615");
    let mut t = String::new();
    push_signed_decimal(&mut t, i64::MIN);
    assert_eq!(t, "-9223372036854775808");
    let mut u = String::new();
    push_signed_decimal(&mut u, -42);
    push_signed_decimal(&mut u, 7);
    assert_eq!(u, "-427");
}

#[test]
fn monitor_cycle_reports_violation_with_summary() {
    let s = MallinfoSnapshot::new(info(-3, 0, 0, 0));
    let r = monitor_cycle(20, &s);
    assert!(r.summary.starts_with("Mallinfo (elapsed time: 20s):\n  arena: -3 (-0.00 MB)\n  ordblks: 0"));
    assert_eq!(r.summary, format!("Mallinfo (elapsed time: 20s):\n  {}", s.format_readable()));
    assert_eq!(r.warnings, vec!["arena is negative: -3 (integer overflow!)".to_string()]);
    assert_eq!(r.sleep_secs, 10);
}

#[test]
fn monitor_timing() {
    assert_eq!(MONITOR_START_DELAY_SECS, 1);
    assert_eq!(MONITOR_INTERVAL_SECS, 10);
    let r = monitor_cycle(0, &MallinfoSnapshot::new(info(1, 1, 1, 1)));
    assert!(r.warnings.is_empty());
    assert_eq!(r.sleep_secs, MONITOR_INTERVAL_SECS);
}
