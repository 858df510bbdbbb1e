use vstd::prelude::*;
use crate::stats::{
    legacy_from_wide, legacy_spec, pair_rescale_needed, pair_needs_rescale, MallinfoC, Mallinfo2C, INT_MAX,
};

verus! {

/// Which one-shot warnings of the override have been emitted in this process.
#[derive(Debug, Clone, Copy, PartialEq, Eq, Structural)]
pub struct ShimLog {
    pub pair_logged: bool,
    pub uordblks_logged: bool,
}

impl ShimLog {
    /// A log in which nothing has been emitted yet.
    pub fn new() -> (r: Self)
        ensures
            !r.pair_logged,
            !r.uordblks_logged,
    {
        ShimLog { pair_logged: false, uordblks_logged: false }
    }
}

/// The warning for a rescaled `arena` / `hblkhd` pair: the values after
/// scaling and their sum.
#[derive(Debug, Clone, Copy, PartialEq, Eq, Structural)]
pub struct PairWarning {
    pub arena: i32,
    pub hblkhd: i32,
    pub sum: i64,
}

/// The warnings that one override call has to emit.
#[derive(Debug, Clone, Copy, PartialEq, Eq, Structural)]
pub struct ShimWarnings {
    /// Set when the pair was rescaled and this was not logged before.
    pub pair: Option<PairWarning>,
    /// The raw wide `uordblks`, set when it passed `INT_MAX` and this was not
    /// logged before.
    pub uordblks_raw: Option<usize>,
}

/// Computes the safe legacy view of `wide` and decides which warnings to
/// emit: each kind of correction is reported the first time it happens
/// according to `log`, which records it.
pub fn safe_mallinfo(wide: &Mallinfo2C, log: &mut ShimLog) -> (r: (MallinfoC, ShimWarnings))
    ensures
        r.0 == legacy_spec(*wide),
        r.1.pair == (if pair_needs_rescale(*wide) && !old(log).pair_logged {
            Some(
                PairWarning {
                    arena: r.0.arena,
                    hblkhd: r.0.hblkhd,
                    sum: (r.0.arena + r.0.hblkhd) as i64,
                },
            )
        } else {
            None
        }),
        r.1.uordblks_raw == (if wide.uordblks > INT_MAX as int && !old(log).uordblks_logged {
            Some(wide.uordblks)
        } else {
            None
        }),
        final(log).pair_logged == (old(log).pair_logged || pair_needs_rescale(*wide)),
        final(log).uordblks_logged == (old(log).uordblks_logged || wide.uordblks > INT_MAX as int),
{
    let out = legacy_from_wide(wide);
    let rescaled = pair_rescale_needed(wide);
    let pair = if rescaled && !log.pair_logged {
        Some(PairWarning { arena: out.arena, hblkhd: out.hblkhd, sum: out.arena as i64 + out.hblkhd as i64 })
    } else {
        None
    };
    if rescaled {
        log.pair_logged = true;
    }
    let overflowed = wide.uordblks as u64 > INT_MAX as u64;
    let uordblks_raw = if overflowed && !log.uordblks_logged {
        Some(wide.uordblks)
    } else {
        None
    };
    if overflowed {
        log.uordblks_logged = true;
    }
    (out, ShimWarnings { pair, uordblks_raw })
}

} // verus!
