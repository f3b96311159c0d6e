use vstd::prelude::*;

verus! {

/// A value is high exactly when it lies strictly above the target high
/// threshold. Values are fixed-point: tenths of a mg/dL.
pub open spec fn spec_is_high(value: i64, target_high: i64) -> bool {
    value > target_high
}

/// A value is low exactly when it lies strictly below the target low
/// threshold. Values are fixed-point: tenths of a mg/dL.
pub open spec fn spec_is_low(value: i64, target_low: i64) -> bool {
    value < target_low
}

/// Derive the alarm flags for one value: `(is_high, is_low)`. A value equal
/// to a threshold raises neither flag (strict inequality both ways).
pub fn evaluate_thresholds(value: i64, target_low: i64, target_high: i64) -> (r: (bool, bool))
    ensures
        r.0 == spec_is_high(value, target_high),
        r.1 == spec_is_low(value, target_low),
{
    (value > target_high, value < target_low)
}

/// With ordered thresholds (`low <= high`) the two flags are never raised
/// together, and a value exactly at either threshold raises neither flag.
pub proof fn lemma_threshold_flags(value: i64, target_low: i64, target_high: i64)
    requires
        target_low <= target_high,
    ensures
        !(spec_is_high(value, target_high) && spec_is_low(value, target_low)),
        value == target_high ==> !spec_is_high(value, target_high) && !spec_is_low(
            value,
            target_low,
        ),
        value == target_low ==> !spec_is_high(value, target_high) && !spec_is_low(
            value,
            target_low,
        ),
{
}

} // verus!
