use vstd::prelude::*;

verus! {

/// Trend direction for glucose readings.
#[derive(Debug, Clone, Copy, PartialEq, Eq, Structural)]
pub enum TrendType {
    SingleDown,
    FortyFiveDown,
    Flat,
    FortyFiveUp,
    SingleUp,
    NotComputable,
}

/// The direction a raw trend code stands for: codes one through five map to
/// the five arrows, anything else (or an absent code) is not computable.
pub open spec fn spec_classify_trend(code: Option<i32>) -> TrendType {
    match code {
        Some(1) => TrendType::SingleDown,
        Some(2) => TrendType::FortyFiveDown,
        Some(3) => TrendType::Flat,
        Some(4) => TrendType::FortyFiveUp,
        Some(5) => TrendType::SingleUp,
        _ => TrendType::NotComputable,
    }
}

/// Map a raw numeric trend code to its trend direction.
pub fn classify_trend(code: Option<i32>) -> (r: TrendType)
    ensures
        r == spec_classify_trend(code),
{
    match code {
        Some(1) => TrendType::SingleDown,
        Some(2) => TrendType::FortyFiveDown,
        Some(3) => TrendType::Flat,
        Some(4) => TrendType::FortyFiveUp,
        Some(5) => TrendType::SingleUp,
        _ => TrendType::NotComputable,
    }
}

/// Every code outside one through five, and an absent code, classifies as
/// `NotComputable`; each code inside that range classifies as its own arrow,
/// so the classification never invents an arrow for unknown input.
pub proof fn lemma_classify_trend_total(code: Option<i32>)
    ensures
        (code matches Some(c) && 1 <= c <= 5) <==> spec_classify_trend(code)
            != TrendType::NotComputable,
{
}

} // verus!
