use vstd::prelude::*;
use crate::stats::{MallinfoC, INT_MAX};
use crate::text::{push_signed_decimal, push_megabytes, signed_decimal, megabytes_text, decimal, push_decimal};

verus! {

/// Seconds the monitor waits after it is started before its first sample.
pub const MONITOR_START_DELAY_SECS: u64 = 1;

/// Seconds between two samples of the monitor.
pub const MONITOR_INTERVAL_SECS: u64 = 10;

/// One sample of the legacy statistics, as the host would see it.
#[derive(Debug, Clone, Copy, PartialEq, Eq, Structural)]
pub struct MallinfoSnapshot {
    pub info: MallinfoC,
}

/// The warning for a negative field, or nothing when the field is not negative.
pub open spec fn negative_warning(name: Seq<char>, v: i32) -> Seq<Seq<char>> {
    if v < 0 {
        seq![name + " is negative: "@ + signed_decimal(v as int) + " (integer overflow!)"@]
    } else {
        Seq::empty()
    }
}

/// The warning for an `arena` / `hblkhd` pair whose sum passes `INT_MAX`, or
/// nothing when it fits.
pub open spec fn pair_warning(m: MallinfoC) -> Seq<Seq<char>> {
    if m.arena + m.hblkhd > INT_MAX as int {
        seq![
            "arena + hblkhd > INT_MAX ("@ + signed_decimal(m.arena as int) + " + "@
                + signed_decimal(m.hblkhd as int) + " > "@ + decimal(INT_MAX as nat) + ")"@,
        ]
    } else {
        Seq::empty()
    }
}

/// Every invariant that `m` breaks, one warning each: first a negative
/// `arena`, `uordblks`, `fordblks` and `hblkhd`, in that order, then any
/// other negative field in field order, then a pair sum past `INT_MAX`. A
/// 32-bit `uordblks` cannot exceed `INT_MAX`, so that invariant never yields
/// a warning here.
pub open spec fn wraparound_warnings(m: MallinfoC) -> Seq<Seq<char>> {
    negative_warning("arena"@, m.arena) + negative_warning("uordblks"@, m.uordblks)
        + negative_warning("fordblks"@, m.fordblks) + negative_warning("hblkhd"@, m.hblkhd)
        + negative_warning("ordblks"@, m.ordblks) + negative_warning("smblks"@, m.smblks)
        + negative_warning("hblks"@, m.hblks) + negative_warning("usmblks"@, m.usmblks)
        + negative_warning("fsmblks"@, m.fsmblks) + negative_warning("keepcost"@, m.keepcost)
        + pair_warning(m)
}

/// A size-denominated field: its name, raw value and value in megabytes.
pub open spec fn sized_field_text(name: Seq<char>, v: i32) -> Seq<char> {
    name + ": "@ + signed_decimal(v as int) + " ("@ + megabytes_text(v as int) + " MB)"@
}

/// A count field: its name and raw value.
pub open spec fn count_field_text(name: Seq<char>, v: i32) -> Seq<char> {
    name + ": "@ + signed_decimal(v as int)
}

/// Every field of `m` in field order, one per line, lines after the first
/// indented by two spaces; size fields also in megabytes.
pub open spec fn readable_text(m: MallinfoC) -> Seq<char> {
    sized_field_text("arena"@, m.arena) + "\n  "@ + count_field_text("ordblks"@, m.ordblks)
        + "\n  "@ + count_field_text("smblks"@, m.smblks) + "\n  "@ + count_field_text(
        "hblks"@,
        m.hblks,
    ) + "\n  "@ + sized_field_text("hblkhd"@, m.hblkhd) + "\n  "@ + count_field_text(
        "usmblks"@,
        m.usmblks,
    ) + "\n  "@ + count_field_text("fsmblks"@, m.fsmblks) + "\n  "@ + sized_field_text(
        "uordblks"@,
        m.uordblks,
    ) + "\n  "@ + sized_field_text("fordblks"@, m.fordblks) + "\n  "@ + sized_field_text(
        "keepcost"@,
        m.keepcost,
    )
}

/// The informational line of one monitor cycle.
pub open spec fn summary_text(elapsed_secs: u64, m: MallinfoC) -> Seq<char> {
    "Mallinfo (elapsed time: "@ + decimal(elapsed_secs as nat) + "s):\n  "@ + readable_text(m)
}

/// What one monitor cycle reports, and how long it then sleeps.
pub struct MonitorReport {
    pub summary: String,
    pub warnings: Vec<String>,
    pub sleep_secs: u64,
}

fn push_sized_field(s: &mut String, name: &str, v: i32)
    ensures
        final(s)@ == old(s)@ + sized_field_text(name@, v),
{
    s.append(name);
    s.append(": ");
    push_signed_decimal(s, v as i64);
    s.append(" (");
    push_megabytes(s, v);
    s.append(" MB)");
    assert(s@ =~= old(s)@ + sized_field_text(name@, v));
}

fn push_count_field(s: &mut String, name: &str, v: i32)
    ensures
        final(s)@ == old(s)@ + count_field_text(name@, v),
{
    s.append(name);
    s.append(": ");
    push_signed_decimal(s, v as i64);
    assert(s@ =~= old(s)@ + count_field_text(name@, v));
}

fn push_negative_warning(warnings: &mut Vec<String>, name: &str, v: i32)
    ensures
        final(warnings)@.map_values(|w: String| w@) == old(warnings)@.map_values(|w: String| w@)
            + negative_warning(name@, v),
{
    if v < 0 {
        let mut w = String::from_str(name);
        w.append(" is negative: ");
        push_signed_decimal(&mut w, v as i64);
        w.append(" (integer overflow!)");
        warnings.push(w);
    }
    assert(warnings@.map_values(|w: String| w@) =~= old(warnings)@.map_values(|w: String| w@)
        + negative_warning(name@, v));
}

impl MallinfoSnapshot {
    /// A snapshot of the record `info`.
    pub fn new(info: MallinfoC) -> (r: Self)
        ensures
            r.info == info,
    {
        MallinfoSnapshot { info }
    }

    /// Lists, as text, every legacy invariant that the snapshot breaks.
    pub fn check_for_wraparound(&self) -> (r: Vec<String>)
        ensures
            r@.map_values(|w: String| w@) == wraparound_warnings(self.info),
    {
        let m = self.info;
        let mut warnings: Vec<String> = Vec::new();
        push_negative_warning(&mut warnings, "arena", m.arena);
        push_negative_warning(&mut warnings, "uordblks", m.uordblks);
        push_negative_warning(&mut warnings, "fordblks", m.fordblks);
        push_negative_warning(&mut warnings, "hblkhd", m.hblkhd);
        push_negative_warning(&mut warnings, "ordblks", m.ordblks);
        push_negative_warning(&mut warnings, "smblks", m.smblks);
        push_negative_warning(&mut warnings, "hblks", m.hblks);
        push_negative_warning(&mut warnings, "usmblks", m.usmblks);
        push_negative_warning(&mut warnings, "fsmblks", m.fsmblks);
        push_negative_warning(&mut warnings, "keepcost", m.keepcost);
        let ghost before_pair = warnings@.map_values(|w: String| w@);
        if m.arena as i64 + m.hblkhd as i64 > INT_MAX as i64 {
            let mut w = String::from_str("arena + hblkhd > INT_MAX (");
            push_signed_decimal(&mut w, m.arena as i64);
            w.append(" + ");
            push_signed_decimal(&mut w, m.hblkhd as i64);
            w.append(" > ");
            push_decimal(&mut w, INT_MAX as u64);
            w.append(")");
            warnings.push(w);
        }
        assert(warnings@.map_values(|w: String| w@) =~= before_pair + pair_warning(m));
        assert(wraparound_warnings(m) =~= before_pair + pair_warning(m));
        warnings
    }

    /// Renders every field of the snapshot, one per line, with the size
    /// fields also in megabytes.
    pub fn format_readable(&self) -> (r: String)
        ensures
            r@ == readable_text(self.info),
    {
        let m = self.info;
        let mut s = String::new();
        push_sized_field(&mut s, "arena", m.arena);
        s.append("\n  ");
        push_count_field(&mut s, "ordblks", m.ordblks);
        s.append("\n  ");
        push_count_field(&mut s, "smblks", m.smblks);
        s.append("\n  ");
        push_count_field(&mut s, "hblks", m.hblks);
        s.append("\n  ");
        push_sized_field(&mut s, "hblkhd", m.hblkhd);
        s.append("\n  ");
        push_count_field(&mut s, "usmblks", m.usmblks);
        s.append("\n  ");
        push_count_field(&mut s, "fsmblks", m.fsmblks);
        s.append("\n  ");
        push_sized_field(&mut s, "uordblks", m.uordblks);
        s.append("\n  ");
        push_sized_field(&mut s, "fordblks", m.fordblks);
        s.append("\n  ");
        push_sized_field(&mut s, "keepcost", m.keepcost);
        assert(s@ =~= readable_text(m));
        s
    }
}

/// One cycle of the monitor on a sample taken `elapsed_secs` after it
/// started: the informational line, every broken invariant as a warning of
/// the same cycle, and the pause before the next sample.
pub fn monitor_cycle(elapsed_secs: u64, snapshot: &MallinfoSnapshot) -> (r: MonitorReport)
    ensures
        r.summary@ == summary_text(elapsed_secs, snapshot.info),
        r.warnings@.map_values(|w: String| w@) == wraparound_warnings(snapshot.info),
        r.sleep_secs == MONITOR_INTERVAL_SECS,
{
    let mut summary = String::from_str("Mallinfo (elapsed time: ");
    push_decimal(&mut summary, elapsed_secs);
    summary.append("s):\n  ");
    let body = snapshot.format_readable();
    summary.append(body.as_str());
    assert(summary@ =~= summary_text(elapsed_secs, snapshot.info));
    MonitorReport {
        summary,
        warnings: snapshot.check_for_wraparound(),
        sleep_secs: MONITOR_INTERVAL_SECS,
    }
}

} // verus!
