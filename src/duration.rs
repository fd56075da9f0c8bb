//! Elapsed time of a test and its human-readable rendering.
use vstd::prelude::*;

verus! {

/// The elapsed time of one test: whole seconds and the nanoseconds beyond them.
#[derive(Debug, Clone, Copy, PartialEq, Eq)]
pub struct Elapsed {
    pub secs: u64,
    pub nanos: u32,
}

impl Elapsed {
    /// A well-formed elapsed time keeps its sub-second part under one second.
    pub open spec fn wf(&self) -> bool {
        self.nanos < 1_000_000_000
    }

    pub open spec fn micros(&self) -> nat {
        (self.secs * 1_000_000 + self.nanos / 1000) as nat
    }

    pub open spec fn millis(&self) -> nat {
        (self.secs * 1000 + self.nanos / 1_000_000) as nat
    }

    pub open spec fn total_nanos(&self) -> nat {
        (self.secs * 1_000_000_000 + self.nanos) as nat
    }

    pub fn new(secs: u64, nanos: u32) -> (r: Elapsed)
        requires
            nanos < 1_000_000_000,
        ensures
            r.wf(),
            r.secs == secs,
            r.nanos == nanos,
    {
        Elapsed { secs, nanos }
    }
}

pub open spec fn digit_char(d: nat) -> char {
    seq!['0', '1', '2', '3', '4', '5', '6', '7', '8', '9'][d as int]
}

/// The decimal digits of `n`, most significant first, without leading zeros.
pub open spec fn decimal(n: nat) -> Seq<char>
    decreases n,
{
    if n < 10 {
        seq![digit_char(n)]
    } else {
        decimal(n / 10).push(digit_char(n % 10))
    }
}

/// The largest whole second count that the humanizing conversion accepts
/// (`i64::MAX` milliseconds).
pub const HUMAN_MAX_SECS: u64 = 9_223_372_036_854_775;

/// The sub-second nanoseconds allowed at `HUMAN_MAX_SECS`.
pub const HUMAN_MAX_NANOS: u32 = 807_000_000;

/// Whether the humanizing conversion can represent `d`.
pub open spec fn humanizable(d: Elapsed) -> bool {
    d.secs < HUMAN_MAX_SECS || (d.secs == HUMAN_MAX_SECS && d.nanos <= HUMAN_MAX_NANOS)
}

/// Minutes with two truncated decimals and a "min" suffix.
pub open spec fn minutes_text(d: Elapsed) -> Seq<char> {
    let hundredths = d.total_nanos() / 600_000_000;
    let frac = hundredths % 100;
    decimal(hundredths / 100) + seq!['.', digit_char(frac / 10), digit_char(frac % 10)] + seq![
        'm',
        'i',
        'n',
    ]
}

/// The rendering of `d`, where `human` is the humanized phrase of `d` when the
/// humanizing conversion accepted it.
pub open spec fn duration_text(d: Elapsed, human: Option<Seq<char>>) -> Seq<char> {
    if d.micros() < 10_000 {
        decimal(d.micros()) + seq!['u', 's']
    } else if d.millis() < 1000 {
        decimal(d.millis()) + seq!['m', 's']
    } else if d.secs < 60 {
        decimal(d.secs as nat) + seq!['s']
    } else {
        match human {
            Some(h) => h,
            None => minutes_text(d),
        }
    }
}

fn digit_str(d: u64) -> (r: &'static str)
    requires
        d < 10,
    ensures
        r@ == seq![digit_char(d as nat)],
{
    proof {
        reveal_strlit("0");
        reveal_strlit("1");
        reveal_strlit("2");
        reveal_strlit("3");
        reveal_strlit("4");
        reveal_strlit("5");
        reveal_strlit("6");
        reveal_strlit("7");
        reveal_strlit("8");
        reveal_strlit("9");
    }
    match d {
        0 => "0",
        1 => "1",
        2 => "2",
        3 => "3",
        4 => "4",
        5 => "5",
        6 => "6",
        7 => "7",
        8 => "8",
        _ => "9",
    }
}

/// Appends the decimal digits of `n` to `s`.
pub fn push_decimal(s: &mut String, n: u64)
    ensures
        final(s)@ == old(s)@ + decimal(n as nat),
    decreases n,
{
    if n >= 10 {
        push_decimal(s, n / 10);
        s.append(digit_str(n % 10));
        assert(final(s)@ =~= old(s)@ + decimal(n as nat));
    } else {
        s.append(digit_str(n));
    }
}


/// The relative English phrase ("in 2 minutes") that chrono_humanize gives for
/// a duration of `secs` seconds and `nanos` nanoseconds.
pub uninterp spec fn humanized(secs: u64, nanos: u32) -> Seq<char>;

/// Relies on chrono's `TimeDelta::from_std`, which accepts a duration of at
/// most `i64::MAX` milliseconds and refuses any longer one, and on
/// chrono_humanize's `Humanize::humanize` of the accepted value, whose phrase
/// depends on the duration alone.
#[verifier::external_body]
fn humanize(secs: u64, nanos: u32) -> (r: Option<String>)
    requires
        nanos < 1_000_000_000,
    ensures
        r.is_some() == humanizable(Elapsed { secs, nanos }),
        r matches Some(h) ==> h@ == humanized(secs, nanos),
{
    let t = chrono::TimeDelta::from_std(std::time::Duration::new(secs, nanos)).ok()?;
    Some(chrono_humanize::Humanize::humanize(&t))
}

/// Renders `d` by the threshold policy, with `human` as the humanized phrase of
/// `d` where the humanizing conversion accepted it.
pub fn render_duration(d: &Elapsed, human: Option<String>) -> (r: String)
    requires
        d.wf(),
    ensures
        r@ == duration_text(*d, human_view(human)),
{
    let micros: u128 = d.secs as u128 * 1_000_000 + (d.nanos / 1000) as u128;
    let mut s = String::new();
    if micros < 10_000 {
        push_decimal(&mut s, micros as u64);
        proof { reveal_strlit("us"); }
        s.append("us");
        return s;
    }
    let millis: u128 = d.secs as u128 * 1000 + (d.nanos / 1_000_000) as u128;
    if millis < 1000 {
        push_decimal(&mut s, millis as u64);
        proof { reveal_strlit("ms"); }
        s.append("ms");
        return s;
    }
    if d.secs < 60 {
        push_decimal(&mut s, d.secs);
        proof { reveal_strlit("s"); }
        s.append("s");
        return s;
    }
    match human {
        Some(h) => h,
        None => {
            let total: u128 = d.secs as u128 * 1_000_000_000 + d.nanos as u128;
            let hundredths: u128 = total / 600_000_000;
            assert(hundredths / 100 <= u64::MAX) by (nonlinear_arith)
                requires
                    hundredths == total / 600_000_000,
                    total == d.secs * 1_000_000_000 + d.nanos,
                    d.secs <= u64::MAX,
                    d.nanos < 1_000_000_000,
            ;
            let frac: u64 = (hundredths % 100) as u64;
            push_decimal(&mut s, (hundredths / 100) as u64);
            proof { reveal_strlit("."); }
            s.append(".");
            s.append(digit_str(frac / 10));
            s.append(digit_str(frac % 10));
            proof { reveal_strlit("min"); }
            s.append("min");
            s
        },
    }
}

pub open spec fn human_view(human: Option<String>) -> Option<Seq<char>> {
    match human {
        Some(h) => Some(h@),
        None => None,
    }
}

/// The rendering of `d` with the humanized phrase where the humanizing
/// conversion accepts `d`.
pub open spec fn took_text(d: Elapsed) -> Seq<char> {
    duration_text(d, if humanizable(d) { Some(humanized(d.secs, d.nanos)) } else { None })
}

/// Renders `d` by the threshold policy: whole microseconds under ten
/// milliseconds, whole milliseconds under a second, whole seconds under a
/// minute, and beyond that a humanized phrase, or fractional minutes where the
/// humanizing conversion cannot represent `d`.
pub fn duration_to_str(d: &Elapsed) -> (r: String)
    requires
        d.wf(),
    ensures
        r@ == took_text(*d),
{
    let human = if d.secs >= 60 {
        humanize(d.secs, d.nanos)
    } else {
        None
    };
    render_duration(d, human)
}

} // verus!
