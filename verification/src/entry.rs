//! The entry model: how a new entry's fields are derived, how payloads are
//! validated, and how an existing intake is amended.

use vstd::prelude::*;

verus! {

use crate::percent::compute_percentage;
use crate::percent::percentage_of;

/// A freshly constructed entry, before the store assigns it an id: the
/// creation date, the intake and target in millilitres, and the derived
/// percentage.
pub struct Water {
    pub date: String,
    pub water_intake: i32,
    pub target: i32,
    pub percentage: i64,
}

/// Why a payload was rejected before reaching the store.
#[derive(PartialEq, Eq, Structural, Debug, Clone, Copy)]
pub enum ValidationError {
    /// The intake was negative.
    NegativeIntake,
    /// The target was zero (the percentage would be undefined) or negative.
    NonPositiveTarget,
}

/// Relies on chrono::Local::now and NaiveDate's rendering for the current
/// local calendar date; the result depends on the clock and the time zone,
/// so nothing is stated of it.
#[verifier::external_body]
fn today_string() -> (r: String) {
    chrono::Local::now().date_naive().to_string()
}

/// Accepts exactly the payloads the model is defined on: a non-negative
/// intake and a positive target (a zero target would leave the percentage
/// undefined).
pub fn validate_payload(water_intake: i32, target: i32) -> (r: Result<(), ValidationError>)
    ensures
        r is Ok <==> water_intake >= 0 && target > 0,
        r == Err::<(), ValidationError>(ValidationError::NegativeIntake) <==> water_intake < 0,
        r == Err::<(), ValidationError>(ValidationError::NonPositiveTarget) <==> (water_intake
            >= 0 && target <= 0),
{
    if water_intake < 0 {
        Err(ValidationError::NegativeIntake)
    } else if target <= 0 {
        Err(ValidationError::NonPositiveTarget)
    } else {
        Ok(())
    }
}

/// The additive amendment rule: the new intake is the current one plus the
/// delta (either sign), never a replacement. `None` exactly when the sum
/// leaves the representable range.
pub fn amend(current_intake: i32, delta: i32) -> (r: Option<i32>)
    ensures
        match r {
            Some(n) => n == current_intake + delta,
            None => !(i32::MIN <= current_intake + delta <= i32::MAX),
        },
{
    let sum: i64 = current_intake as i64 + delta as i64;
    if i32::MIN as i64 <= sum && sum <= i32::MAX as i64 {
        Some(sum as i32)
    } else {
        None
    }
}

impl Water {
    /// Builds an entry dated today, with the percentage derived from the
    /// intake and the target. The date is whatever the local clock says;
    /// nothing else depends on it.
    pub fn new(water_intake: i32, target: i32) -> (w: Water)
        requires
            water_intake >= 0,
            target > 0,
        ensures
            w.water_intake == water_intake,
            w.target == target,
            w.percentage == percentage_of(water_intake as int, target as int),
    {
        let date = today_string();
        let percentage = compute_percentage(water_intake, target);
        Water { date, water_intake, target, percentage }
    }
}

} // verus!
