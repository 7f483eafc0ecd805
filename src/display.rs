//! The one-line report: a two-decimal percentage and a signed `H:MM` time
//! annotation.

use vstd::prelude::*;
use crate::aggregate::Configuration;
use crate::telemetry::BatteryStatus;
use crate::text::{decimal, is_digit, push_char, push_decimal, push_two_digits, two_digits};

verus! {

/// `H:MM` for a duration in whole seconds: unpadded whole hours, then the
/// whole minutes left over, on two digits.
pub open spec fn hours_minutes(secs: nat) -> Seq<char> {
    decimal(secs / 3600) + seq![':'] + two_digits((secs % 3600) / 60)
}

/// The time annotation: ` (+H:MM)` when charging, ` (-H:MM)` when
/// discharging, nothing otherwise.
pub open spec fn time_annotation(status: BatteryStatus, secs: nat) -> Seq<char> {
    match status {
        BatteryStatus::Charging => seq![' ', '(', '+'] + hours_minutes(secs) + seq![')'],
        BatteryStatus::Discharging => seq![' ', '(', '-'] + hours_minutes(secs) + seq![')'],
        BatteryStatus::Unknown => Seq::empty(),
    }
}

/// A percentage given in hundredths, with two decimals and a `%` sign.
pub open spec fn percentage_text(hundredths: nat) -> Seq<char> {
    decimal(hundredths / 100) + seq!['.'] + two_digits(hundredths % 100) + seq!['%']
}

/// The report line of a configuration.
pub open spec fn status_line_of(config: Configuration) -> Seq<char> {
    percentage_text(config.percentage as nat)
        + time_annotation(config.status, config.time_to_completion as nat)
}

fn push_hours_minutes(out: &mut String, secs: u64)
    ensures
        final(out)@ == old(out)@ + hours_minutes(secs as nat),
{
    push_decimal(out, (secs / 3600) as u128);
    push_char(out, ':');
    push_two_digits(out, ((secs % 3600) / 60) as u128);
    assert(final(out)@ =~= old(out)@ + hours_minutes(secs as nat));
}

fn push_annotation(out: &mut String, status: BatteryStatus, secs: u64)
    ensures
        final(out)@ == old(out)@ + time_annotation(status, secs as nat),
{
    match status {
        BatteryStatus::Charging => {
            push_char(out, ' ');
            push_char(out, '(');
            push_char(out, '+');
            push_hours_minutes(out, secs);
            push_char(out, ')');
        },
        BatteryStatus::Discharging => {
            push_char(out, ' ');
            push_char(out, '(');
            push_char(out, '-');
            push_hours_minutes(out, secs);
            push_char(out, ')');
        },
        BatteryStatus::Unknown => {},
    }
    assert(final(out)@ =~= old(out)@ + time_annotation(status, secs as nat));
}

/// The signed time annotation for `status` and a duration in whole seconds.
pub fn calc_display_time(status: BatteryStatus, secs: u64) -> (r: String)
    ensures
        r@ == time_annotation(status, secs as nat),
{
    let mut out = String::new();
    push_annotation(&mut out, status, secs);
    assert(out@ =~= time_annotation(status, secs as nat));
    out
}

/// The report line: the percentage with two decimals, then the time
/// annotation.
pub fn status_line(config: &Configuration) -> (r: String)
    ensures
        r@ == status_line_of(*config),
{
    let mut out = String::new();
    push_decimal(&mut out, config.percentage / 100);
    push_char(&mut out, '.');
    push_two_digits(&mut out, config.percentage % 100);
    push_char(&mut out, '%');
    assert(out@ =~= percentage_text(config.percentage as nat));
    push_annotation(&mut out, config.status, config.time_to_completion);
    assert(out@ =~= status_line_of(*config));
    out
}

/// The annotation's sign follows the status: `-` when discharging, `+` when
/// charging, and no annotation at all otherwise.
pub proof fn lemma_annotation_sign(status: BatteryStatus, secs: nat)
    ensures
        status == BatteryStatus::Discharging ==> time_annotation(status, secs).len() > 3
            && time_annotation(status, secs).subrange(0, 3) == seq![' ', '(', '-'],
        status == BatteryStatus::Charging ==> time_annotation(status, secs).len() > 3
            && time_annotation(status, secs).subrange(0, 3) == seq![' ', '(', '+'],
        status == BatteryStatus::Unknown ==> time_annotation(status, secs).len() == 0,
{
    let hm = hours_minutes(secs);
    assert(hm.len() >= 3) by {
        lemma_decimal_nonempty(secs / 3600);
    }
    let plus = seq![' ', '(', '+'] + hm + seq![')'];
    let minus = seq![' ', '(', '-'] + hm + seq![')'];
    assert(plus.subrange(0, 3) =~= seq![' ', '(', '+']);
    assert(minus.subrange(0, 3) =~= seq![' ', '(', '-']);
}

/// Every character of a decimal rendering is a digit.
proof fn lemma_decimal_digits(n: nat)
    ensures
        forall|i: int| 0 <= i < decimal(n).len() ==> is_digit(#[trigger] decimal(n)[i]),
    decreases n,
{
    if n >= 10 {
        lemma_decimal_digits(n / 10);
        let d = decimal(n / 10);
        assert forall|i: int| 0 <= i < decimal(n).len() implies is_digit(#[trigger] decimal(n)[i]) by {
            if i < d.len() {
                assert(decimal(n)[i] == d[i]);
            }
        }
    }
}

/// The parts of a report line: no `(` outside the annotation, which starts
/// with ` (` and its sign.
proof fn lemma_line_parts(config: Configuration)
    ensures
        forall|i: int| 0 <= i < percentage_text(config.percentage as nat).len()
            ==> #[trigger] percentage_text(config.percentage as nat)[i] != '(',
        percentage_text(config.percentage as nat).last() == '%',
        config.status != BatteryStatus::Unknown ==> forall|i: int|
            3 <= i < hours_minutes(config.time_to_completion as nat).len() + 3 ==> #[trigger] time_annotation(config.status, config.time_to_completion as nat)[i] != '(',
{
    let h = config.percentage as nat;
    let secs = config.time_to_completion as nat;
    lemma_decimal_digits(h / 100);
    lemma_decimal_digits(secs / 3600);
    let d = decimal(h / 100);
    let p = percentage_text(h);
    assert forall|i: int| 0 <= i < p.len() implies #[trigger] p[i] != '(' by {
        if i < d.len() {
            assert(p[i] == d[i]);
        }
    }
    let hm = hours_minutes(secs);
    let e = decimal(secs / 3600);
    assert forall|i: int| 0 <= i < hm.len() implies #[trigger] hm[i] != '(' by {
        if i < e.len() {
            assert(hm[i] == e[i]);
        }
    }
    let a = time_annotation(config.status, secs);
    if config.status != BatteryStatus::Unknown {
        assert forall|i: int| 3 <= i < hm.len() + 3 implies #[trigger] a[i] != '(' by {
            assert(a[i] == hm[i - 3]);
        }
    }
}

/// The report line holds `(+` exactly when the status is charging, `(-`
/// exactly when it is discharging, and ends with the `%` of the percentage
/// exactly when the status is `Unknown`.
pub proof fn lemma_status_line_sign(config: Configuration)
    ensures
        (exists|i: int| 0 <= i < status_line_of(config).len() - 1
            && #[trigger] status_line_of(config)[i] == '(' && status_line_of(config)[i + 1] == '+')
            <==> config.status == BatteryStatus::Charging,
        (exists|i: int| 0 <= i < status_line_of(config).len() - 1
            && #[trigger] status_line_of(config)[i] == '(' && status_line_of(config)[i + 1] == '-')
            <==> config.status == BatteryStatus::Discharging,
        (status_line_of(config).last() == '%') <==> config.status == BatteryStatus::Unknown,
{
    lemma_line_parts(config);
    let secs = config.time_to_completion as nat;
    let p = percentage_text(config.percentage as nat);
    let a = time_annotation(config.status, secs);
    let hm = hours_minutes(secs);
    let line = status_line_of(config);
    assert(line == p + a);
    lemma_annotation_sign(config.status, secs);
    // The only `(` of the line is the second character of the annotation.
    assert forall|i: int| 0 <= i < line.len() && #[trigger] line[i] == '(' implies i == p.len() + 1
        && config.status != BatteryStatus::Unknown by {
        if i < p.len() {
            assert(line[i] == p[i]);
        } else {
            assert(line[i] == a[i - p.len()]);
            if config.status != BatteryStatus::Unknown {
                assert(a.len() == hm.len() + 4);
                assert(a[0] == ' ');
                assert(a[2] != '(');
                assert(a[a.len() - 1] == ')');
            }
        }
    }
    if config.status != BatteryStatus::Unknown {
        let k = p.len() as int + 1;
        assert(line[k] == a[1]);
        assert(line[k + 1] == a[2]);
        assert(a[1] == a.subrange(0, 3)[1]);
        assert(a[2] == a.subrange(0, 3)[2]);
        assert(line.last() == a.last());
        assert(a.last() == ')');
    } else {
        assert(line =~= p);
    }
}

/// A decimal rendering has at least one digit.
proof fn lemma_decimal_nonempty(n: nat)
    ensures
        decimal(n).len() >= 1,
    decreases n,
{
    if n >= 10 {
        lemma_decimal_nonempty(n / 10);
    }
}

} // verus!
