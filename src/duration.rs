//! Display of a test's duration as hours, minutes, seconds and milliseconds.
use vstd::prelude::*;
use vstd::string::StringExecFns;

verus! {

/// The decimal digit character of `d`.
pub open spec fn digit_char(d: nat) -> char
    recommends
        d < 10,
{
    if d == 0 { '0' }
    else if d == 1 { '1' }
    else if d == 2 { '2' }
    else if d == 3 { '3' }
    else if d == 4 { '4' }
    else if d == 5 { '5' }
    else if d == 6 { '6' }
    else if d == 7 { '7' }
    else if d == 8 { '8' }
    else { '9' }
}

/// The decimal notation of `n`, without leading zeros.
pub open spec fn decimal(n: nat) -> Seq<char>
    decreases n,
{
    if n < 10 {
        seq![digit_char(n)]
    } else {
        decimal(n / 10).push(digit_char(n % 10))
    }
}

/// The decimal notation of `n`, with a leading zero below ten.
pub open spec fn two_digits(n: nat) -> Seq<char> {
    if n < 10 {
        seq!['0'] + decimal(n)
    } else {
        decimal(n)
    }
}

/// A duration in milliseconds split into whole hours, minutes, seconds and
/// the milliseconds left over.
#[derive(Clone, Copy, Debug, PartialEq, Eq, Structural)]
pub struct HmsParts {
    pub hours: u64,
    pub minutes: u64,
    pub seconds: u64,
    pub millis: u64,
}

/// The text of a duration of `ms` milliseconds: `H:MM:SS.ms` when there are
/// hours, `0:M:SS.ms` when there are minutes, else `0:0:S.ms`. Minutes and
/// seconds take two digits only after a larger unit; milliseconds are
/// written without padding.
pub open spec fn hms_text(ms: nat) -> Seq<char> {
    let h = ms / 3_600_000;
    let m = (ms % 3_600_000) / 60_000;
    let s = (ms % 60_000) / 1000;
    let r = ms % 1000;
    if h > 0 {
        decimal(h) + seq![':'] + two_digits(m) + seq![':'] + two_digits(s) + seq!['.'] + decimal(r)
    } else if m > 0 {
        seq!['0', ':'] + decimal(m) + seq![':'] + two_digits(s) + seq!['.'] + decimal(r)
    } else {
        seq!['0', ':', '0', ':'] + decimal(s) + seq!['.'] + decimal(r)
    }
}

impl HmsParts {
    /// Splits `ms` milliseconds into hours, minutes, seconds and milliseconds.
    pub fn from_millis(ms: u64) -> (r: HmsParts)
        ensures
            r.hours == ms / 3_600_000,
            r.minutes == (ms % 3_600_000) / 60_000,
            r.seconds == (ms % 60_000) / 1000,
            r.millis == ms % 1000,
    {
        let hours = ms / 3_600_000;
        let rest = ms % 3_600_000;
        let minutes = rest / 60_000;
        let rest = rest % 60_000;
        let seconds = rest / 1000;
        let millis = rest % 1000;
        assert(ms % 60_000 == (ms % 3_600_000) % 60_000) by {
            vstd::arithmetic::div_mod::lemma_mod_mod(ms as int, 60_000, 60);
        }
        assert(ms % 1000 == (ms % 60_000) % 1000) by {
            vstd::arithmetic::div_mod::lemma_mod_mod(ms as int, 1000, 60);
        }
        HmsParts { hours, minutes, seconds, millis }
    }
}

/// The one-character string of digit `d`.
fn digit_str(d: u64) -> (r: &'static str)
    requires
        d < 10,
    ensures
        r@ == seq![digit_char(d as nat)],
{
    proof {
        reveal_strlit("0");
        reveal_strlit("1");
        reveal_strlit("2");
        reveal_strlit("3");
        reveal_strlit("4");
        reveal_strlit("5");
        reveal_strlit("6");
        reveal_strlit("7");
        reveal_strlit("8");
        reveal_strlit("9");
    }
    let r = if d == 0 { "0" }
    else if d == 1 { "1" }
    else if d == 2 { "2" }
    else if d == 3 { "3" }
    else if d == 4 { "4" }
    else if d == 5 { "5" }
    else if d == 6 { "6" }
    else if d == 7 { "7" }
    else if d == 8 { "8" }
    else { "9" };
    assert(r@ =~= seq![digit_char(d as nat)]);
    r
}

/// Appends the decimal notation of `n` to `out`.
pub fn push_decimal(out: &mut String, n: u64)
    ensures
        final(out)@ == old(out)@ + decimal(n as nat),
    decreases n,
{
    if n >= 10 {
        push_decimal(out, n / 10);
    }
    out.append(digit_str(n % 10));
    proof {
        if n >= 10 {
            assert(old(out)@ + decimal(n as nat) =~= old(out)@ + decimal((n / 10) as nat) + seq![digit_char((n % 10) as nat)]);
        } else {
            assert(n % 10 == n);
        }
    }
}

/// Appends `n` to `out` with a leading zero below ten.
fn push_two_digits(out: &mut String, n: u64)
    ensures
        final(out)@ == old(out)@ + two_digits(n as nat),
{
    if n < 10 {
        out.append(digit_str(0));
        proof {
            assert(n % 10 == n);
        }
    }
    push_decimal(out, n);
    proof {
        if n < 10 {
            assert(old(out)@ + two_digits(n as nat) =~= old(out)@ + seq!['0'] + decimal(n as nat));
        }
    }
}

/// The display text of a duration of `ms` milliseconds.
pub fn format_hms(ms: u64) -> (r: String)
    ensures
        r@ == hms_text(ms as nat),
{
    let p = HmsParts::from_millis(ms);
    let mut out = String::new();
    proof {
        reveal_strlit(":");
        reveal_strlit(".");
        reveal_strlit("0:");
        reveal_strlit("0:0:");
    }
    if p.hours > 0 {
        push_decimal(&mut out, p.hours);
        out.append(":");
        push_two_digits(&mut out, p.minutes);
        out.append(":");
        push_two_digits(&mut out, p.seconds);
    } else if p.minutes > 0 {
        out.append("0:");
        push_decimal(&mut out, p.minutes);
        out.append(":");
        push_two_digits(&mut out, p.seconds);
    } else {
        out.append("0:0:");
        push_decimal(&mut out, p.seconds);
    }
    out.append(".");
    push_decimal(&mut out, p.millis);
    assert(out@ =~= hms_text(ms as nat));
    out
}

} // verus!
