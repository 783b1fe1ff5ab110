use vstd::arithmetic::div_mod::{lemma_div_denominator, lemma_fundamental_div_mod};
use vstd::prelude::*;

verus! {

/// The decimal digit for `d`.
pub open spec fn digit_char(d: nat) -> char {
    if d == 0 { '0' }
    else if d == 1 { '1' }
    else if d == 2 { '2' }
    else if d == 3 { '3' }
    else if d == 4 { '4' }
    else if d == 5 { '5' }
    else if d == 6 { '6' }
    else if d == 7 { '7' }
    else if d == 8 { '8' }
    else { '9' }
}

/// The decimal representation of `n`, without leading zeros.
pub open spec fn decimal(n: nat) -> Seq<char>
    decreases n,
{
    if n < 10 {
        seq![digit_char(n)]
    } else {
        decimal(n / 10).push(digit_char(n % 10))
    }
}

/// Whether `c` is one of the decimal digits '0' to '9'.
pub open spec fn is_digit(c: char) -> bool {
    48 <= (c as int) && (c as int) <= 57
}

/// The number a sequence of decimal digits stands for, most significant first.
pub open spec fn decimal_value(s: Seq<char>) -> int
    decreases s.len(),
{
    if s.len() == 0 {
        0
    } else {
        10 * decimal_value(s.drop_last()) + ((s.last() as int) - 48)
    }
}

proof fn lemma_digit_char(d: nat)
    requires
        d < 10,
    ensures
        is_digit(digit_char(d)),
        (digit_char(d) as int) - 48 == d,
        d > 0 ==> digit_char(d) != '0',
{
}

/// The decimal text of a number is made of digits, stands for that number, and has
/// no leading zero (0 itself is written "0").
pub proof fn law_decimal_is_the_number(n: nat)
    ensures
        decimal(n).len() >= 1,
        forall|i: int| 0 <= i < decimal(n).len() ==> is_digit(#[trigger] decimal(n)[i]),
        decimal_value(decimal(n)) == n,
        n > 0 ==> decimal(n)[0] != '0',
        n == 0 ==> decimal(n) == seq!['0'],
    decreases n,
{
    if n < 10 {
        lemma_digit_char(n);
        assert(decimal(n).drop_last() =~= Seq::<char>::empty());
        assert(decimal_value(decimal(n)) == 10 * decimal_value(Seq::<char>::empty()) + ((digit_char(n) as int) - 48));
    } else {
        let q: nat = n / 10;
        let r: nat = n % 10;
        law_decimal_is_the_number(q);
        lemma_digit_char(r);
        lemma_fundamental_div_mod(n as int, 10);
        let d = decimal(q);
        assert(decimal(n) == d.push(digit_char(r)));
        assert(decimal(n).drop_last() =~= d);
        assert forall|i: int| 0 <= i < decimal(n).len() implies is_digit(#[trigger] decimal(n)[i]) by {
            if i < d.len() {
                assert(decimal(n)[i] == d[i]);
            }
        }
        assert(decimal(n)[0] == d[0]);
        assert(decimal_value(decimal(n)) == 10 * decimal_value(d) + ((digit_char(r) as int) - 48));
        assert(n == 10 * q + r);
    }
}

fn digit_str(d: u32) -> (r: &'static str)
    requires
        d < 10,
    ensures
        r@ == seq![digit_char(d as nat)],
{
    proof {
        reveal_strlit("0");
        reveal_strlit("1");
        reveal_strlit("2");
        reveal_strlit("3");
        reveal_strlit("4");
        reveal_strlit("5");
        reveal_strlit("6");
        reveal_strlit("7");
        reveal_strlit("8");
        reveal_strlit("9");
    }
    if d == 0 { "0" }
    else if d == 1 { "1" }
    else if d == 2 { "2" }
    else if d == 3 { "3" }
    else if d == 4 { "4" }
    else if d == 5 { "5" }
    else if d == 6 { "6" }
    else if d == 7 { "7" }
    else if d == 8 { "8" }
    else { "9" }
}

/// The decimal representation of `n`.
pub fn decimal_string(n: u32) -> (r: String)
    ensures
        r@ == decimal(n as nat),
    decreases n,
{
    if n < 10 {
        String::from_str(digit_str(n))
    } else {
        let mut r = decimal_string(n / 10);
        r.append(digit_str(n % 10));
        r
    }
}

/// The whole days, hours, minutes and seconds of a duration of `t` seconds.
pub open spec fn time_parts(t: nat) -> (nat, nat, nat, nat) {
    (t / 86400, (t / 3600) % 24, (t / 60) % 60, t % 60)
}

/// Taking minutes, then hours, then days one division at a time, and the
/// remainder at each step, gives the parts of `time_parts`.
proof fn lemma_parts_step_by_step(t: nat)
    ensures
        (t / 60) / 60 == t / 3600,
        ((t / 60) / 60) / 24 == t / 86400,
        (t / 3600) - (t / 86400) * 24 == (t / 3600) % 24,
        (t / 60) - (t / 3600) * 60 == (t / 60) % 60,
        t - (t / 60) * 60 == t % 60,
{
    lemma_div_denominator(t as int, 60, 60);
    lemma_div_denominator(t as int, 3600, 24);
    lemma_fundamental_div_mod((t / 3600) as int, 24);
    lemma_fundamental_div_mod((t / 60) as int, 60);
    lemma_fundamental_div_mod(t as int, 60);
}

/// A duration in Polish words: days, hours and minutes are named only when not
/// zero, seconds always, each followed by a space.
pub open spec fn pretty_seconds(t: nat) -> Seq<char> {
    let parts: (nat, nat, nat, nat) = time_parts(t);
    (if parts.0 > 0 { decimal(parts.0) + " dni "@ } else { Seq::empty() })
        + (if parts.1 > 0 { decimal(parts.1) + " godzin "@ } else { Seq::empty() })
        + (if parts.2 > 0 { decimal(parts.2) + " minut "@ } else { Seq::empty() })
        + decimal(parts.3) + " sekund "@
}

/// The parts of a duration are in range and add up to the duration.
pub proof fn law_time_parts_add_up(t: nat)
    ensures
        time_parts(t).1 < 24,
        time_parts(t).2 < 60,
        time_parts(t).3 < 60,
        time_parts(t).0 * 86400 + time_parts(t).1 * 3600 + time_parts(t).2 * 60 + time_parts(t).3 == t,
{
    let m: nat = t / 60;
    let h: nat = m / 60;
    let d: nat = h / 24;
    lemma_parts_step_by_step(t);
    assert(m * 60 <= t && t - m * 60 < 60) by (nonlinear_arith)
        requires m == t / 60;
    assert(h * 60 <= m && m - h * 60 < 60) by (nonlinear_arith)
        requires h == m / 60;
    assert(d * 24 <= h && h - d * 24 < 24) by (nonlinear_arith)
        requires d == h / 24;
    assert(d * 86400 + (h - d * 24) * 3600 + (m - h * 60) * 60 + (t - m * 60) == t) by (nonlinear_arith);
}

/// A duration is always named down to its seconds: the text ends with the
/// seconds within the minute and " sekund ", and under a minute it is only that.
pub proof fn law_pretty_seconds_ends_with_seconds(t: nat)
    ensures
        pretty_seconds(t).subrange(pretty_seconds(t).len() - decimal(t % 60).len() - 8, pretty_seconds(t).len() as int)
            == decimal(t % 60) + " sekund "@,
        t < 60 ==> pretty_seconds(t) == decimal(t) + " sekund "@,
{
    reveal_strlit(" sekund ");
    let parts = time_parts(t);
    let front = (if parts.0 > 0 { decimal(parts.0) + " dni "@ } else { Seq::empty() })
        + (if parts.1 > 0 { decimal(parts.1) + " godzin "@ } else { Seq::empty() })
        + (if parts.2 > 0 { decimal(parts.2) + " minut "@ } else { Seq::empty() });
    assert(pretty_seconds(t) == front + (decimal(t % 60) + " sekund "@));
    assert(pretty_seconds(t).subrange(pretty_seconds(t).len() - decimal(t % 60).len() - 8, pretty_seconds(t).len() as int)
        =~= decimal(t % 60) + " sekund "@);
    if t < 60 {
        assert(t / 86400 == 0 && (t / 3600) % 24 == 0 && (t / 60) % 60 == 0 && t % 60 == t);
        assert(front =~= Seq::<char>::empty());
        assert(pretty_seconds(t) =~= decimal(t) + " sekund "@);
    }
}

/// A duration in seconds as Polish text, e.g. 3725 gives "1 godzin 2 minut 5 sekund ".
pub fn pretty_print_seconds(seconds_total: u32) -> (r: String)
    ensures
        r@ == pretty_seconds(seconds_total as nat),
{
    let minutes_total: u32 = seconds_total / 60;
    let hours_total: u32 = minutes_total / 60;
    let days: u32 = hours_total / 24;
    proof {
        lemma_parts_step_by_step(seconds_total as nat);
        assert(minutes_total * 60 <= seconds_total) by (nonlinear_arith)
            requires minutes_total == seconds_total / 60;
        assert(hours_total * 60 <= minutes_total) by (nonlinear_arith)
            requires hours_total == minutes_total / 60;
        assert(days * 24 <= hours_total) by (nonlinear_arith)
            requires days == hours_total / 24;
    }
    let hours: u32 = hours_total - days * 24;
    let minutes: u32 = minutes_total - hours_total * 60;
    let seconds: u32 = seconds_total - minutes_total * 60;

    let mut ret = String::new();
    if days > 0 {
        ret.append(decimal_string(days).as_str());
        ret.append(" dni ");
    }
    if hours > 0 {
        ret.append(decimal_string(hours).as_str());
        ret.append(" godzin ");
    }
    if minutes > 0 {
        ret.append(decimal_string(minutes).as_str());
        ret.append(" minut ");
    }
    ret.append(decimal_string(seconds).as_str());
    ret.append(" sekund ");
    proof {
        assert(ret@ =~= pretty_seconds(seconds_total as nat));
    }
    ret
}

} // verus!
