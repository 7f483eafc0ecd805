//! Combining all batteries into one machine-wide configuration: a charge
//! percentage, a status, and a linear time estimate.

use vstd::prelude::*;
use crate::telemetry::{BatteryReading, BatteryStatus};

verus! {

/// The charge-threshold fraction that stands for a full battery, in parts
/// per ten thousand.
pub const FULL_THRESHOLD: u32 = 10000;

/// Sum of `current_charge` over the readings, in mWh.
pub open spec fn total_current(s: Seq<BatteryReading>) -> nat
    decreases s.len(),
{
    if s.len() == 0 { 0 } else { total_current(s.drop_last()) + s.last().current_charge as nat }
}

/// Sum of `max_charge` over the readings, in mWh.
pub open spec fn total_max(s: Seq<BatteryReading>) -> nat
    decreases s.len(),
{
    if s.len() == 0 { 0 } else { total_max(s.drop_last()) + s.last().max_charge as nat }
}

/// Sum of `power_draw` over the readings, in mW.
pub open spec fn total_draw(s: Seq<BatteryReading>) -> nat
    decreases s.len(),
{
    if s.len() == 0 { 0 } else { total_draw(s.drop_last()) + s.last().power_draw as nat }
}

/// The machine-wide status: the status of the first reading, in discovery
/// order, that is charging or discharging; `Unknown` when there is none.
pub open spec fn aggregate_status(s: Seq<BatteryReading>) -> BatteryStatus
    decreases s.len(),
{
    if s.len() == 0 {
        BatteryStatus::Unknown
    } else if s[0].status == BatteryStatus::Unknown {
        aggregate_status(s.drop_first())
    } else {
        s[0].status
    }
}

/// Status resolution is a first match in discovery order: the machine-wide
/// status is that of the first reading that is charging or discharging, and
/// `Unknown` when every reading is `Unknown` (or there is none).
pub proof fn lemma_status_is_first_match(s: Seq<BatteryReading>, k: int)
    ensures
        (forall|j: int| 0 <= j < s.len() ==> (#[trigger] s[j]).status == BatteryStatus::Unknown)
            ==> aggregate_status(s) == BatteryStatus::Unknown,
        0 <= k < s.len() && s[k].status != BatteryStatus::Unknown
            && (forall|j: int| 0 <= j < k ==> (#[trigger] s[j]).status == BatteryStatus::Unknown)
            ==> aggregate_status(s) == s[k].status,
    decreases s.len(),
{
    if s.len() > 0 {
        let t = s.drop_first();
        lemma_status_is_first_match(t, k - 1);
        if forall|j: int| 0 <= j < s.len() ==> (#[trigger] s[j]).status == BatteryStatus::Unknown {
            assert(s[0].status == BatteryStatus::Unknown);
            assert forall|j: int| 0 <= j < t.len() implies (#[trigger] t[j]).status == BatteryStatus::Unknown by {
                assert(t[j] == s[j + 1]);
            }
        }
        if 0 < k < s.len() && s[k].status != BatteryStatus::Unknown
            && (forall|j: int| 0 <= j < k ==> (#[trigger] s[j]).status == BatteryStatus::Unknown) {
            assert(s[0].status == BatteryStatus::Unknown);
            assert(t[k - 1] == s[k]);
            assert forall|j: int| 0 <= j < k - 1 implies (#[trigger] t[j]).status == BatteryStatus::Unknown by {
                assert(t[j] == s[j + 1]);
            }
        }
    }
}

/// `current / max` in hundredths of a percent, rounded to the nearest with
/// halves up; 0 when `max` is 0.
pub open spec fn percentage_of(current: nat, max: nat) -> nat {
    if max == 0 { 0 } else { (20000 * current + max) / (2 * max) }
}

/// Whole seconds to drain `current` mWh at `draw` mW; 0 when `draw` is 0.
pub open spec fn seconds_to_empty(current: nat, draw: nat) -> nat {
    if draw == 0 { 0 } else { (current * 3600) / draw }
}

/// Whole seconds to charge from `current` mWh up to `threshold` (parts per
/// ten thousand) of `max` mWh at `draw` mW; 0 when `draw` is 0 or the
/// threshold is already reached.
pub open spec fn seconds_to_full(current: nat, max: nat, draw: nat, threshold: nat) -> nat {
    if draw == 0 || max * threshold <= current * 10000 {
        0
    } else {
        ((max * threshold - current * 10000) * 3600) as nat / (draw * 10000)
    }
}

/// The time estimate in whole seconds for the readings under `status`.
pub open spec fn estimate_seconds(s: Seq<BatteryReading>, status: BatteryStatus, threshold: nat) -> nat {
    match status {
        BatteryStatus::Unknown => 0,
        BatteryStatus::Discharging => seconds_to_empty(total_current(s), total_draw(s)),
        BatteryStatus::Charging => seconds_to_full(total_current(s), total_max(s), total_draw(s), threshold),
    }
}

/// `n`, or `u64::MAX` where `n` does not fit.
pub open spec fn saturate(n: nat) -> u64 {
    if n > u64::MAX { u64::MAX } else { n as u64 }
}

proof fn lemma_current_within_max(s: Seq<BatteryReading>)
    requires
        forall|i: int| 0 <= i < s.len() ==> (#[trigger] s[i]).current_charge <= s[i].max_charge,
    ensures
        total_current(s) <= total_max(s),
    decreases s.len(),
{
    if s.len() > 0 {
        let t = s.drop_last();
        assert forall|i: int| 0 <= i < t.len() implies (#[trigger] t[i]).current_charge <= t[i].max_charge by {
            assert(t[i] == s[i]);
        }
        lemma_current_within_max(t);
        assert(s.last() == s[s.len() - 1]);
    }
}

/// The percentage is the sum of the charges over the sum of the capacities,
/// to the nearest hundredth of a percent: `p / 10000` lies within half a
/// hundredth of a percent of `total_current / total_max`. Where no battery
/// holds more than its capacity and some capacity exists, it lies between 0
/// and 100 percent.
pub proof fn lemma_percentage_is_ratio(s: Seq<BatteryReading>)
    requires
        forall|i: int| 0 <= i < s.len() ==> (#[trigger] s[i]).current_charge <= s[i].max_charge,
        total_max(s) > 0,
    ensures
        percentage_of(total_current(s), total_max(s)) * 2 * total_max(s)
            <= 20000 * total_current(s) + total_max(s),
        20000 * total_current(s) + total_max(s)
            < (percentage_of(total_current(s), total_max(s)) + 1) * 2 * total_max(s),
        percentage_of(total_current(s), total_max(s)) <= 10000,
{
    lemma_current_within_max(s);
    let c = total_current(s);
    let m = total_max(s);
    let p = percentage_of(c, m);
    assert(p == (20000 * c + m) / (2 * m));
    assert(p * 2 * m <= 20000 * c + m < (p + 1) * 2 * m) by (nonlinear_arith)
        requires p == (20000 * c + m) / (2 * m), m > 0;
    assert(p <= 10000) by (nonlinear_arith)
        requires p * 2 * m <= 20000 * c + m, c <= m, m > 0;
}

/// The aggregate of all batteries of a machine.
#[derive(Clone, Copy, Debug)]
pub struct Configuration {
    /// Estimated time to full or to empty, in whole seconds.
    pub time_to_completion: u64,
    /// Charge of all batteries together, in hundredths of a percent.
    pub percentage: u128,
    pub status: BatteryStatus,
}

/// The largest sum of `u32` fields over a vector's readings.
spec fn sum_bound() -> nat {
    0xFFFF_FFFF_FFFF_FFFF * 0xFFFF_FFFF
}

/// The three totals, computed together.
fn totals(bats: &Vec<BatteryReading>) -> (r: (u128, u128, u128))
    ensures
        r.0 == total_current(bats@),
        r.1 == total_max(bats@),
        r.2 == total_draw(bats@),
        r.0 <= sum_bound(),
        r.1 <= sum_bound(),
        r.2 <= sum_bound(),
{
    let mut cur: u128 = 0;
    let mut max: u128 = 0;
    let mut draw: u128 = 0;
    let mut i: usize = 0;
    while i < bats.len()
        invariant
            i <= bats@.len(),
            cur == total_current(bats@.subrange(0, i as int)),
            max == total_max(bats@.subrange(0, i as int)),
            draw == total_draw(bats@.subrange(0, i as int)),
            cur <= i * 0xFFFF_FFFFu128,
            max <= i * 0xFFFF_FFFFu128,
            draw <= i * 0xFFFF_FFFFu128,
        decreases bats@.len() - i,
    {
        assert(bats@.subrange(0, i + 1).drop_last() =~= bats@.subrange(0, i as int));
        cur = cur + bats[i].current_charge as u128;
        max = max + bats[i].max_charge as u128;
        draw = draw + bats[i].power_draw as u128;
        i = i + 1;
    }
    assert(bats@.subrange(0, i as int) =~= bats@);
    (cur, max, draw)
}

/// The machine-wide status: first match over the readings in discovery order.
pub fn resolve_status(bats: &Vec<BatteryReading>) -> (r: BatteryStatus)
    ensures
        r == aggregate_status(bats@),
{
    let mut i: usize = 0;
    assert(bats@.subrange(0, bats@.len() as int) =~= bats@);
    while i < bats.len()
        invariant
            i <= bats@.len(),
            aggregate_status(bats@) == aggregate_status(bats@.subrange(i as int, bats@.len() as int)),
        decreases bats@.len() - i,
    {
        let ghost rest = bats@.subrange(i as int, bats@.len() as int);
        assert(rest.drop_first() =~= bats@.subrange(i + 1, bats@.len() as int));
        match bats[i].status {
            BatteryStatus::Charging => { return BatteryStatus::Charging; },
            BatteryStatus::Discharging => { return BatteryStatus::Discharging; },
            BatteryStatus::Unknown => {},
        }
        i = i + 1;
    }
    BatteryStatus::Unknown
}

/// Charge of all batteries together, in hundredths of a percent.
pub fn calc_percentage(bats: &Vec<BatteryReading>) -> (r: u128)
    ensures
        r == percentage_of(total_current(bats@), total_max(bats@)),
{
    let (cur, max, _) = totals(bats);
    if max == 0 {
        0
    } else {
        (20000 * cur + max) / (2 * max)
    }
}

/// Time to empty (discharging) or to `threshold` of full (charging), in
/// whole seconds; 0 when the status is `Unknown`.
pub fn calc_time(bats: &Vec<BatteryReading>, stat: BatteryStatus, threshold: u32) -> (r: u64)
    requires
        threshold <= FULL_THRESHOLD,
    ensures
        r == saturate(estimate_seconds(bats@, stat, threshold as nat)),
{
    let (cur, max, draw) = totals(bats);
    let secs: u128 = match stat {
        BatteryStatus::Unknown => 0,
        BatteryStatus::Discharging => {
            if draw == 0 { 0 } else { (cur * 3600) / draw }
        },
        BatteryStatus::Charging => {
            assert(max * threshold <= sum_bound() * 10000) by (nonlinear_arith)
                requires max <= sum_bound(), threshold <= 10000;
            let target = max * threshold as u128;
            if draw == 0 || target <= cur * 10000 {
                0
            } else {
                ((target - cur * 10000) * 3600) / (draw * 10000)
            }
        },
    };
    if secs > u64::MAX as u128 {
        u64::MAX
    } else {
        secs as u64
    }
}

/// Percentage, status and time estimate of all readings together.
pub fn get_configuration(bats: &Vec<BatteryReading>, threshold: u32) -> (r: Configuration)
    requires
        threshold <= FULL_THRESHOLD,
    ensures
        r.status == aggregate_status(bats@),
        r.percentage == percentage_of(total_current(bats@), total_max(bats@)),
        r.time_to_completion == saturate(estimate_seconds(bats@, r.status, threshold as nat)),
{
    let status = resolve_status(bats);
    Configuration {
        time_to_completion: calc_time(bats, status, threshold),
        percentage: calc_percentage(bats),
        status,
    }
}

} // verus!
