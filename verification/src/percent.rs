//! The derived `percentage` of an entry: intake as a share of the target,
//! times one hundred, rounded to the nearest whole number (halves away from
//! zero, as the service has always displayed it).

use vstd::prelude::*;

verus! {

use vstd::arithmetic::div_mod::lemma_fundamental_div_mod;
use vstd::arithmetic::div_mod::lemma_div_nonincreasing;
use vstd::arithmetic::div_mod::lemma_div_pos_is_pos;

/// `num / den` rounded to the nearest integer, halves away from zero.
/// Meaningful only for `den > 0`.
pub open spec fn round_ratio(num: int, den: int) -> int
    recommends
        den > 0,
{
    if num >= 0 {
        (2 * num + den) / (2 * den)
    } else {
        -((2 * -num + den) / (2 * den))
    }
}

/// The percentage an intake has reached of a (positive) target.
pub open spec fn percentage_of(water_intake: int, target: int) -> int
    recommends
        target > 0,
{
    round_ratio(100 * water_intake, target)
}

/// Rounding puts the result within half a unit of the exact ratio:
/// `2 * target * percentage` differs from `200 * water_intake` by at most
/// `target`.
pub proof fn lemma_percentage_rounds(water_intake: int, target: int)
    requires
        water_intake >= 0,
        target > 0,
    ensures
        -target < 2 * target * percentage_of(water_intake, target) - 200 * water_intake
            <= target,
{
    let n = 200 * water_intake + target;
    let d = 2 * target;
    lemma_fundamental_div_mod(n, d);
    assert(2 * target * percentage_of(water_intake, target) == d * (n / d));
}

fn magnitude_percentage(num: u64, target: u64) -> (p: u64)
    requires
        0 < target <= i32::MAX,
        num <= 100 * 0x8000_0000u64,
    ensures
        p == (2 * num + target) / (2 * target),
        p <= 2 * num + target,
{
    let p: u64 = (2 * num + target) / (2 * target);
    proof {
        lemma_div_nonincreasing((2 * num + target) as int, (2 * target) as int);
        lemma_div_pos_is_pos((2 * num + target) as int, (2 * target) as int);
    }
    p
}

/// The percentage the service reports for a row: exact integer arithmetic in
/// place of the float the display rounds to.
pub fn compute_percentage(water_intake: i32, target: i32) -> (p: i64)
    requires
        target > 0,
    ensures
        p == percentage_of(water_intake as int, target as int),
        i64::MIN < p,
{
    let t: u64 = target as u64;
    if water_intake >= 0 {
        let num: u64 = 100 * (water_intake as u64);
        magnitude_percentage(num, t) as i64
    } else {
        let mag: i64 = -(water_intake as i64);
        let num: u64 = 100 * (mag as u64);
        -(magnitude_percentage(num, t) as i64)
    }
}

} // verus!
