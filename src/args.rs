use vstd::prelude::*;
use crate::scan::{ascii_digit, chars_of, digit_value, is_digit, is_white_space, white_space};

verus! {

/// Why a duration text was refused.
#[derive(Debug, Clone, Copy, PartialEq, Eq, Structural)]
pub enum DurationError {
    /// A unit letter with no number before it.
    MissingNumber(char),
    /// A number past `u64::MAX`.
    NumberTooLarge,
    /// A character that is neither a digit, a unit letter nor white space.
    InvalidChar(char),
    /// Digits after the last unit letter.
    TrailingNumber,
    /// A total past `u64::MAX` seconds.
    TotalTooLarge,
    /// A total of zero seconds.
    Zero,
}

/// The unit letters of a duration: seconds, minutes, hours.
pub open spec fn is_unit(c: char) -> bool {
    c == 's' || c == 'm' || c == 'h'
}

/// Seconds in one of the unit `c`.
pub open spec fn unit_secs(c: char) -> int {
    if c == 's' {
        1
    } else if c == 'm' {
        60
    } else {
        3600
    }
}

/// Reads `s` from position `i` on, with `total` seconds read so far and
/// `num` the value of the digits read since the last unit (`has_num` when
/// there are any). White space is skipped anywhere.
pub open spec fn duration_scan(s: Seq<char>, i: int, total: int, num: int, has_num: bool) -> Result<
    u64,
    DurationError,
>
    decreases s.len() - i,
{
    if i >= s.len() {
        if has_num {
            Err(DurationError::TrailingNumber)
        } else if total == 0 {
            Err(DurationError::Zero)
        } else {
            Ok(total as u64)
        }
    } else {
        let c = s[i];
        if is_digit(c) {
            duration_scan(s, i + 1, total, num * 10 + digit_value(c), true)
        } else if is_unit(c) {
            if !has_num {
                Err(DurationError::MissingNumber(c))
            } else if num > u64::MAX as int {
                Err(DurationError::NumberTooLarge)
            } else if total + num * unit_secs(c) > u64::MAX as int {
                Err(DurationError::TotalTooLarge)
            } else {
                duration_scan(s, i + 1, total + num * unit_secs(c), 0, false)
            }
        } else if is_white_space(c) {
            duration_scan(s, i + 1, total, num, has_num)
        } else {
            Err(DurationError::InvalidChar(c))
        }
    }
}

/// The seconds that a duration text such as `1h30m` or `45s` stands for.
pub open spec fn duration_spec(s: Seq<char>) -> Result<u64, DurationError> {
    duration_scan(s, 0, 0, 0, false)
}

/// Parses a duration written as numbers each followed by a unit: `s`
/// (seconds), `m` (minutes) or `h` (hours), as in `1h30m`; white space is
/// ignored. Returns the total in seconds, which must be positive.
pub fn parse_duration(input: &str) -> (r: Result<u64, DurationError>)
    ensures
        r == duration_spec(input@),
{
    let cs = chars_of(input);
    let mut total: u64 = 0;
    let mut num: u64 = 0;
    let mut num_too_large = false;
    let mut has_num = false;
    let ghost mut n: int = 0;
    let mut i: usize = 0;
    while i < cs.len()
        invariant
            cs@ == input@,
            i <= cs@.len(),
            duration_spec(input@) == duration_scan(cs@, i as int, total as int, n, has_num),
            n >= 0,
            !num_too_large ==> n == num as int,
            num_too_large ==> n > u64::MAX as int,
        decreases cs.len() - i,
    {
        let c = cs[i];
        if ascii_digit(c) {
            let d: u64 = (c as u32 - '0' as u32) as u64;
            proof {
                assert(n * 10 + d >= n) by (nonlinear_arith)
                    requires n >= 0, d >= 0;
                n = n * 10 + d;
            }
            if !num_too_large {
                match num.checked_mul(10) {
                    Some(t) => match t.checked_add(d) {
                        Some(v) => {
                            num = v;
                        },
                        None => {
                            num_too_large = true;
                        },
                    },
                    None => {
                        num_too_large = true;
                    },
                }
            }
            has_num = true;
        } else if c == 's' || c == 'm' || c == 'h' {
            if !has_num {
                return Err(DurationError::MissingNumber(c));
            }
            if num_too_large {
                return Err(DurationError::NumberTooLarge);
            }
            let unit: u64 = if c == 's' {
                1
            } else if c == 'm' {
                60
            } else {
                3600
            };
            match num.checked_mul(unit) {
                Some(secs) => match total.checked_add(secs) {
                    Some(t) => {
                        total = t;
                    },
                    None => {
                        return Err(DurationError::TotalTooLarge);
                    },
                },
                None => {
                    assert(total + num * unit > u64::MAX as int) by (nonlinear_arith)
                        requires num * unit > u64::MAX as int, total >= 0;
                    return Err(DurationError::TotalTooLarge);
                },
            }
            num = 0;
            has_num = false;
            proof {
                n = 0;
            }
        } else if white_space(c) {
        } else {
            return Err(DurationError::InvalidChar(c));
        }
        i = i + 1;
    }
    if has_num {
        Err(DurationError::TrailingNumber)
    } else if total == 0 {
        Err(DurationError::Zero)
    } else {
        Ok(total)
    }
}

/// The options of the command line.
#[derive(Debug)]
pub struct Args {
    /// Render a web page rather than read a video file.
    pub use_web: bool,
    /// How long to record, in seconds; no recording when absent.
    pub duration_secs: Option<u64>,
    /// How much memory to allocate and hold before starting, as written.
    pub allocate_ram: Option<String>,
}

/// What a command line asks for: a run with its options, or the usage text.
#[derive(Debug)]
pub enum ParsedArgs {
    Run(Args),
    Help,
}

/// Why a command line was refused.
#[derive(Debug)]
pub enum ArgsError {
    /// `--ram` with nothing after it.
    MissingRamValue,
    /// `--rec` with nothing after it.
    MissingRecValue,
    /// The value after `--rec` is no valid duration: why, and the value.
    BadDuration(DurationError, String),
    /// An argument that is no known option.
    UnknownArgument(String),
}

/// `Args` with its texts as character sequences.
pub struct ArgsView {
    pub use_web: bool,
    pub duration_secs: Option<u64>,
    pub allocate_ram: Option<Seq<char>>,
}

impl View for Args {
    type V = ArgsView;

    open spec fn view(&self) -> ArgsView {
        ArgsView {
            use_web: self.use_web,
            duration_secs: self.duration_secs,
            allocate_ram: match self.allocate_ram {
                Some(s) => Some(s@),
                None => None,
            },
        }
    }
}

/// The outcome of parsing a command line, with its texts as character
/// sequences.
pub enum ArgsOutcome {
    Run(ArgsView),
    Help,
    MissingRamValue,
    MissingRecValue,
    BadDuration(DurationError, Seq<char>),
    UnknownArgument(Seq<char>),
}

/// The outcome that a result of `Args::parse_from` stands for.
pub open spec fn outcome_of(r: Result<ParsedArgs, ArgsError>) -> ArgsOutcome {
    match r {
        Ok(ParsedArgs::Run(a)) => ArgsOutcome::Run(a@),
        Ok(ParsedArgs::Help) => ArgsOutcome::Help,
        Err(ArgsError::MissingRamValue) => ArgsOutcome::MissingRamValue,
        Err(ArgsError::MissingRecValue) => ArgsOutcome::MissingRecValue,
        Err(ArgsError::BadDuration(e, v)) => ArgsOutcome::BadDuration(e, v@),
        Err(ArgsError::UnknownArgument(a)) => ArgsOutcome::UnknownArgument(a@),
    }
}

/// Reads the arguments from position `i` on, into the options `acc` read so
/// far. `--help` or `-h` stops at once; `--ram` and `--rec` take the next
/// argument as their value; a later option overrides an earlier one.
pub open spec fn args_scan(args: Seq<Seq<char>>, i: int, acc: ArgsView) -> ArgsOutcome
    decreases args.len() - i,
{
    if i >= args.len() {
        ArgsOutcome::Run(acc)
    } else {
        let a = args[i];
        if a == "--help"@ || a == "-h"@ {
            ArgsOutcome::Help
        } else if a == "--web"@ {
            args_scan(args, i + 1, ArgsView { use_web: true, ..acc })
        } else if a == "--ram"@ {
            if i + 1 >= args.len() {
                ArgsOutcome::MissingRamValue
            } else {
                args_scan(args, i + 2, ArgsView { allocate_ram: Some(args[i + 1]), ..acc })
            }
        } else if a == "--rec"@ {
            if i + 1 >= args.len() {
                ArgsOutcome::MissingRecValue
            } else {
                match duration_spec(args[i + 1]) {
                    Ok(d) => args_scan(args, i + 2, ArgsView { duration_secs: Some(d), ..acc }),
                    Err(e) => ArgsOutcome::BadDuration(e, args[i + 1]),
                }
            }
        } else {
            ArgsOutcome::UnknownArgument(a)
        }
    }
}

/// The outcome of a whole command line, whose first argument names the
/// program.
pub open spec fn args_spec(args: Seq<Seq<char>>) -> ArgsOutcome {
    args_scan(
        args,
        1,
        ArgsView { use_web: false, duration_secs: None, allocate_ram: None },
    )
}

fn same_text(a: &String, b: &str) -> (r: bool)
    ensures
        r == (a@ == b@),
{
    *a == String::from_str(b)
}

impl Args {
    /// Parses a command line; `args[0]` names the program and is skipped.
    pub fn parse_from(args: &Vec<String>) -> (r: Result<ParsedArgs, ArgsError>)
        ensures
            outcome_of(r) == args_spec(args@.map_values(|s: String| s@)),
    {
        let ghost views = args@.map_values(|s: String| s@);
        let mut use_web = false;
        let mut duration_secs: Option<u64> = None;
        let mut allocate_ram: Option<String> = None;
        let mut i: usize = 1;
        while i < args.len()
            invariant
                views == args@.map_values(|s: String| s@),
                args_spec(views) == args_scan(
                    views,
                    i as int,
                    (Args { use_web, duration_secs, allocate_ram })@,
                ),
            decreases args.len() - i,
        {
            let arg = &args[i];
            if same_text(arg, "--help") || same_text(arg, "-h") {
                return Ok(ParsedArgs::Help);
            } else if same_text(arg, "--web") {
                use_web = true;
                i = i + 1;
            } else if same_text(arg, "--ram") {
                if i + 1 >= args.len() {
                    return Err(ArgsError::MissingRamValue);
                }
                allocate_ram = Some(args[i + 1].clone());
                i = i + 2;
            } else if same_text(arg, "--rec") {
                if i + 1 >= args.len() {
                    return Err(ArgsError::MissingRecValue);
                }
                match parse_duration(args[i + 1].as_str()) {
                    Ok(d) => {
                        duration_secs = Some(d);
                    },
                    Err(e) => {
                        return Err(ArgsError::BadDuration(e, args[i + 1].clone()));
                    },
                }
                i = i + 2;
            } else {
                return Err(ArgsError::UnknownArgument(arg.clone()));
            }
        }
        Ok(ParsedArgs::Run(Args { use_web, duration_secs, allocate_ram }))
    }
}

} // verus!
