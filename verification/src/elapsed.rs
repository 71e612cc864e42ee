//! How long an operation took, printed in the largest unit that reads well.
use std::time::Duration;
use std::time::Instant;
use vstd::prelude::*;

use crate::decimal::{decimal, decimal_pad2, push_char, push_decimal};

verus! {

#[verifier::external_type_specification]
#[verifier::external_body]
pub struct ExInstant(Instant);

/// Calls `Instant::elapsed`: the time that has passed since `start`, read
/// from the system's monotonic clock. The result depends on the clock, so
/// nothing is stated of it.
#[verifier::external_body]
fn instant_elapsed(start: &Instant) -> Duration {
    start.elapsed()
}

/// The whole seconds of the span `d` (what `Duration::as_secs` gives).
pub uninterp spec fn secs_of(d: Duration) -> u64;

/// The nanoseconds of the span `d` beyond its whole seconds (what
/// `Duration::subsec_nanos` gives).
pub uninterp spec fn nanos_of(d: Duration) -> u32;

/// Calls `Duration::as_secs`: the whole seconds of `d`, a function of `d`
/// alone, named `secs_of`.
#[verifier::external_body]
fn duration_as_secs(d: &Duration) -> (s: u64)
    ensures
        s == secs_of(*d),
{
    d.as_secs()
}

/// Calls `Duration::subsec_nanos`: the fractional part of `d` in
/// nanoseconds, a function of `d` alone, named `nanos_of`, which std
/// documents to be below one billion.
#[verifier::external_body]
fn duration_subsec_nanos(d: &Duration) -> (n: u32)
    ensures
        n == nanos_of(*d),
        n < 1_000_000_000,
{
    d.subsec_nanos()
}

/// One billion: the nanoseconds in a second.
pub open spec fn nanos_per_sec() -> nat {
    1_000_000_000
}

/// The characters ` ns`.
pub open spec fn suffix_ns() -> Seq<char> {
    seq![' ', 'n', 's']
}

/// The characters ` µs`.
pub open spec fn suffix_us() -> Seq<char> {
    seq![' ', '\u{b5}', 's']
}

/// The characters ` ms`.
pub open spec fn suffix_ms() -> Seq<char> {
    seq![' ', 'm', 's']
}

/// The characters ` s`.
pub open spec fn suffix_s() -> Seq<char> {
    seq![' ', 's']
}

/// The text of an elapsed time of `secs` seconds and `nanos` nanoseconds:
/// below a microsecond in nanoseconds, below a millisecond in whole
/// microseconds, below a second in whole milliseconds, below ten seconds in
/// seconds with two decimals (truncated), and otherwise in whole seconds.
pub open spec fn elapsed_text(secs: nat, nanos: nat) -> Seq<char> {
    if secs == 0 && nanos < 1000 {
        decimal(nanos) + suffix_ns()
    } else if secs == 0 && nanos < 1_000_000 {
        decimal(nanos / 1000) + suffix_us()
    } else if secs == 0 {
        decimal(nanos / 1_000_000) + suffix_ms()
    } else if secs < 10 {
        decimal(secs) + seq!['.'] + decimal_pad2(nanos / 10_000_000) + suffix_s()
    } else {
        decimal(secs) + suffix_s()
    }
}

/// The figure that `elapsed_text` shows, as a count of units, and the size
/// of that unit in nanoseconds (hundredths of a second from one to ten
/// seconds).
pub open spec fn shown_quantity(secs: nat, nanos: nat) -> (nat, nat) {
    if secs == 0 && nanos < 1000 {
        (nanos, 1)
    } else if secs == 0 && nanos < 1_000_000 {
        (nanos / 1000, 1000)
    } else if secs == 0 {
        (nanos / 1_000_000, 1_000_000)
    } else if secs < 10 {
        (secs * 100 + nanos / 10_000_000, 10_000_000)
    } else {
        (secs, nanos_per_sec())
    }
}

/// The text of `count` units of `unit` nanoseconds, for the units that
/// `shown_quantity` picks.
pub open spec fn quantity_text(count: nat, unit: nat) -> Seq<char> {
    if unit == 1 {
        decimal(count) + suffix_ns()
    } else if unit == 1000 {
        decimal(count) + suffix_us()
    } else if unit == 1_000_000 {
        decimal(count) + suffix_ms()
    } else if unit == 10_000_000 {
        decimal(count / 100) + seq!['.'] + decimal_pad2(count % 100) + suffix_s()
    } else {
        decimal(count) + suffix_s()
    }
}

/// A measured span of time, as whole seconds and the nanoseconds beyond them.
pub struct Elapsed {
    secs: u64,
    nanos: u32,
}

impl Elapsed {
    #[verifier::type_invariant]
    spec fn nanos_below_a_second(self) -> bool {
        self.nanos < 1_000_000_000
    }

    /// The whole seconds of this span.
    pub closed spec fn spec_secs(self) -> nat {
        self.secs as nat
    }

    /// The nanoseconds of this span beyond its whole seconds.
    pub closed spec fn spec_nanos(self) -> nat {
        self.nanos as nat
    }

    /// The span of `secs` seconds and `nanos` nanoseconds.
    pub fn from_parts(secs: u64, nanos: u32) -> (e: Elapsed)
        requires
            nanos < 1_000_000_000,
        ensures
            e.spec_secs() == secs,
            e.spec_nanos() == nanos,
    {
        Elapsed { secs, nanos }
    }

    /// The span that `d` measures: its whole seconds and the nanoseconds
    /// beyond them.
    pub fn from_duration(d: &Duration) -> (e: Elapsed)
        ensures
            e.spec_secs() == secs_of(*d),
            e.spec_nanos() == nanos_of(*d),
            e.spec_nanos() < nanos_per_sec(),
    {
        let secs = duration_as_secs(d);
        let nanos = duration_subsec_nanos(d);
        Elapsed::from_parts(secs, nanos)
    }

    /// The time that has passed since `start`, as the clock reports it: the
    /// whole seconds and the nanoseconds beyond them of that one `Duration`.
    /// Which `Duration` the clock gives is not a function of `start`, so it is
    /// not named; the span keeps both of its parts.
    pub fn from(start: &Instant) -> (e: Elapsed)
        ensures
            e.spec_nanos() < nanos_per_sec(),
            exists|d: Duration|
                e.spec_secs() == #[trigger] secs_of(d) && e.spec_nanos() == nanos_of(d),
    {
        let d = instant_elapsed(start);
        Elapsed::from_duration(&d)
    }

    /// The whole seconds of this span.
    pub fn secs(&self) -> (s: u64)
        ensures
            s == self.spec_secs(),
    {
        self.secs
    }

    /// The nanoseconds of this span beyond its whole seconds.
    pub fn subsec_nanos(&self) -> (n: u32)
        ensures
            n == self.spec_nanos(),
            n < nanos_per_sec(),
    {
        proof {
            use_type_invariant(self);
        }
        self.nanos
    }

    /// The text of this span, such as `734 ns`, `12 µs`, `98 ms`, `3.07 s`
    /// or `42 s`.
    pub fn to_string(&self) -> (s: String)
        ensures
            s@ == elapsed_text(self.spec_secs(), self.spec_nanos()),
    {
        proof {
            use_type_invariant(self);
        }
        let secs = self.secs;
        let nanos = self.nanos;
        let mut out = String::new();
        if secs == 0 && nanos < 1000 {
            push_decimal(&mut out, nanos as u64);
            push_char(&mut out, ' ');
            push_char(&mut out, 'n');
            push_char(&mut out, 's');
        } else if secs == 0 && nanos < 1_000_000 {
            push_decimal(&mut out, (nanos / 1000) as u64);
            push_char(&mut out, ' ');
            push_char(&mut out, '\u{b5}');
            push_char(&mut out, 's');
        } else if secs == 0 {
            push_decimal(&mut out, (nanos / 1_000_000) as u64);
            push_char(&mut out, ' ');
            push_char(&mut out, 'm');
            push_char(&mut out, 's');
        } else if secs < 10 {
            let hundredths: u32 = nanos / 10_000_000;
            push_decimal(&mut out, secs);
            push_char(&mut out, '.');
            if hundredths < 10 {
                push_char(&mut out, '0');
            }
            push_decimal(&mut out, hundredths as u64);
            push_char(&mut out, ' ');
            push_char(&mut out, 's');
        } else {
            push_decimal(&mut out, secs);
            push_char(&mut out, ' ');
            push_char(&mut out, 's');
        }
        assert(out@ =~= elapsed_text(secs as nat, nanos as nat));
        out
    }
}

/// The text of the span read from a `Duration` `d` shows `d` truncated to
/// the unit it picks: at most `d`, and less than one unit short of it, so
/// no part of `d` (its whole seconds in particular) is left out.
pub proof fn law_text_of_a_duration_is_within_a_unit(d: Duration)
    requires
        nanos_of(d) < 1_000_000_000,
    ensures
        ({
            let (count, unit) = shown_quantity(secs_of(d) as nat, nanos_of(d) as nat);
            let total = secs_of(d) * nanos_per_sec() + nanos_of(d);
            &&& elapsed_text(secs_of(d) as nat, nanos_of(d) as nat) == quantity_text(count, unit)
            &&& count * unit <= total < (count + 1) * unit
        }),
{
    law_elapsed_text_truncates(secs_of(d), nanos_of(d));
}

/// The text of an elapsed time shows its figure truncated, never rounded up:
/// the shown count of units times the unit is at most the span, and one more
/// unit would exceed it. The figure is zero only for a zero span.
pub proof fn law_elapsed_text_truncates(secs: u64, nanos: u32)
    requires
        nanos < 1_000_000_000,
    ensures
        ({
            let (count, unit) = shown_quantity(secs as nat, nanos as nat);
            let total = secs * nanos_per_sec() + nanos;
            &&& elapsed_text(secs as nat, nanos as nat) == quantity_text(count, unit)
            &&& count * unit <= total < (count + 1) * unit
            &&& (count >= 1 || total == 0)
        }),
{
    let (count, unit) = shown_quantity(secs as nat, nanos as nat);
    let total = secs * nanos_per_sec() + nanos;
    if secs == 0 && nanos < 1000 {
        assert(count * unit <= total < (count + 1) * unit) by (nonlinear_arith)
            requires
                count == nanos,
                unit == 1,
                total == nanos,
        ;
    } else if secs == 0 && nanos < 1_000_000 {
        assert(count * unit <= total < (count + 1) * unit) by (nonlinear_arith)
            requires
                count == nanos / 1000,
                unit == 1000,
                total == nanos,
        ;
    } else if secs == 0 {
        assert(count * unit <= total < (count + 1) * unit) by (nonlinear_arith)
            requires
                count == nanos / 1_000_000,
                unit == 1_000_000,
                total == nanos,
        ;
    } else if secs < 10 {
        let h = nanos / 10_000_000;
        assert(h < 100);
        assert(count / 100 == secs && count % 100 == h);
        assert(elapsed_text(secs as nat, nanos as nat) == quantity_text(count, unit));
        assert(count * unit <= total < (count + 1) * unit) by (nonlinear_arith)
            requires
                count == secs * 100 + h,
                h == nanos / 10_000_000,
                unit == 10_000_000,
                total == secs * 1_000_000_000 + nanos,
        ;
    } else {
        assert(count * unit <= total < (count + 1) * unit) by (nonlinear_arith)
            requires
                count == secs,
                unit == 1_000_000_000,
                total == secs * 1_000_000_000 + nanos,
                nanos < 1_000_000_000,
        ;
    }
}

} // verus!
