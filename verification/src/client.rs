use vstd::prelude::*;
use crate::errors::NormalizationError;
use crate::graph::{Data, GlucoseItem};
use crate::thresholds::{evaluate_thresholds, spec_is_high, spec_is_low};
use crate::timestamp::{parse_factory_timestamp, ts_epoch, ts_valid};
use crate::trend::{classify_trend, spec_classify_trend, TrendType};

verus! {

/// Processed glucose data for consumption: the canonical reading. The
/// value is fixed-point (tenths of a mg/dL) and the date is the absolute
/// instant in seconds since the Unix epoch.
#[derive(Debug, Clone, Copy, PartialEq, Eq, Structural)]
pub struct LibreCgmData {
    /// Glucose value in tenths of a mg/dL
    pub value: i64,
    /// Whether the value is above the target high
    pub is_high: bool,
    /// Whether the value is below the target low
    pub is_low: bool,
    /// Trend direction
    pub trend: TrendType,
    /// Timestamp of the reading, seconds since the Unix epoch
    pub date: i64,
}

/// What normalizing one raw reading yields: the raw value passed through
/// unmodified, alarm flags from the strict threshold comparisons, the
/// classified trend, and the instant the factory timestamp names — or an
/// error exactly when that timestamp does not parse.
pub open spec fn spec_normalize(item: GlucoseItem, target_low: i64, target_high: i64) -> Result<
    LibreCgmData,
    NormalizationError,
> {
    if ts_valid(item.factory_timestamp@) {
        Ok(
            LibreCgmData {
                value: item.value_in_mg_per_dl,
                is_high: spec_is_high(item.value_in_mg_per_dl, target_high),
                is_low: spec_is_low(item.value_in_mg_per_dl, target_low),
                trend: spec_classify_trend(item.trend_arrow),
                date: ts_epoch(item.factory_timestamp@) as i64,
            },
        )
    } else {
        Err(NormalizationError::InvalidTimestamp)
    }
}

/// Normalize one raw sensor reading against the per-patient thresholds.
pub fn normalize(item: &GlucoseItem, target_low: i64, target_high: i64) -> (r: Result<
    LibreCgmData,
    NormalizationError,
>)
    ensures
        r == spec_normalize(*item, target_low, target_high),
{
    match parse_factory_timestamp(item.factory_timestamp.as_str()) {
        Some(date) => {
            let (is_high, is_low) = evaluate_thresholds(
                item.value_in_mg_per_dl,
                target_low,
                target_high,
            );
            Ok(
                LibreCgmData {
                    value: item.value_in_mg_per_dl,
                    is_high,
                    is_low,
                    trend: classify_trend(item.trend_arrow),
                    date,
                },
            )
        },
        None => Err(NormalizationError::InvalidTimestamp),
    }
}

/// With ordered thresholds, a normalized reading never raises both alarm
/// flags, and a value exactly at a threshold raises neither: the canonical
/// reading's flag invariant.
pub proof fn lemma_normalize_flags_exclusive(
    item: GlucoseItem,
    target_low: i64,
    target_high: i64,
)
    requires
        target_low <= target_high,
    ensures
        spec_normalize(item, target_low, target_high) matches Ok(d) ==> !(d.is_high && d.is_low),
        spec_normalize(item, target_low, target_high) matches Ok(d) ==> (
        item.value_in_mg_per_dl == target_high ==> !d.is_high && !d.is_low),
        spec_normalize(item, target_low, target_high) matches Ok(d) ==> (
        item.value_in_mg_per_dl == target_low ==> !d.is_high && !d.is_low),
{
    crate::thresholds::lemma_threshold_flags(item.value_in_mg_per_dl, target_low, target_high);
}

/// The successfully normalized readings of a batch, in the order received.
pub open spec fn spec_batch_ok(items: Seq<GlucoseItem>, target_low: i64, target_high: i64) -> Seq<
    LibreCgmData,
>
    decreases items.len(),
{
    if items.len() == 0 {
        Seq::<LibreCgmData>::empty()
    } else {
        let rest = spec_batch_ok(items.drop_last(), target_low, target_high);
        match spec_normalize(items.last(), target_low, target_high) {
            Ok(d) => rest.push(d),
            Err(_) => rest,
        }
    }
}

/// The per-item errors of a batch, each with the index of the reading it
/// belongs to, in the order received.
pub open spec fn spec_batch_errs(items: Seq<GlucoseItem>, target_low: i64, target_high: i64) -> Seq<
    (usize, NormalizationError),
>
    decreases items.len(),
{
    if items.len() == 0 {
        Seq::<(usize, NormalizationError)>::empty()
    } else {
        let rest = spec_batch_errs(items.drop_last(), target_low, target_high);
        match spec_normalize(items.last(), target_low, target_high) {
            Ok(_) => rest,
            Err(e) => rest.push((((items.len() - 1) as usize), e)),
        }
    }
}

/// How many readings of a batch fail to normalize.
pub open spec fn spec_bad_count(items: Seq<GlucoseItem>, target_low: i64, target_high: i64) -> int
    decreases items.len(),
{
    if items.len() == 0 {
        0
    } else {
        spec_bad_count(items.drop_last(), target_low, target_high) + match spec_normalize(
            items.last(),
            target_low,
            target_high,
        ) {
            Ok(_) => 0int,
            Err(_) => 1int,
        }
    }
}

/// Normalize every raw item of a batch, in the order received. One bad
/// item never aborts the batch: it is reported, with its index, beside the
/// readings that did normalize.
pub fn normalize_batch(items: &Vec<GlucoseItem>, target_low: i64, target_high: i64) -> (r: (
    Vec<LibreCgmData>,
    Vec<(usize, NormalizationError)>,
))
    ensures
        r.0@ == spec_batch_ok(items@, target_low, target_high),
        r.1@ == spec_batch_errs(items@, target_low, target_high),
{
    let mut oks: Vec<LibreCgmData> = Vec::new();
    let mut errs: Vec<(usize, NormalizationError)> = Vec::new();
    let mut i: usize = 0;
    while i < items.len()
        invariant
            i <= items@.len(),
            oks@ == spec_batch_ok(items@.take(i as int), target_low, target_high),
            errs@ == spec_batch_errs(items@.take(i as int), target_low, target_high),
        decreases items@.len() - i,
    {
        proof {
            assert(items@.take(i + 1).drop_last() =~= items@.take(i as int));
            assert(items@.take(i + 1).last() == items@[i as int]);
        }
        match normalize(&items[i], target_low, target_high) {
            Ok(d) => {
                oks.push(d);
            },
            Err(e) => {
                errs.push((i, e));
            },
        }
        i = i + 1;
    }
    proof {
        assert(items@.take(items@.len() as int) =~= items@);
    }
    (oks, errs)
}

/// Every reading of a batch is either normalized or reported: the
/// successes and the per-item errors together account for each item
/// exactly once.
pub proof fn lemma_batch_partition(items: Seq<GlucoseItem>, target_low: i64, target_high: i64)
    ensures
        0 <= spec_bad_count(items, target_low, target_high) <= items.len(),
        spec_batch_errs(items, target_low, target_high).len() == spec_bad_count(
            items,
            target_low,
            target_high,
        ),
        spec_batch_ok(items, target_low, target_high).len() == items.len() - spec_bad_count(
            items,
            target_low,
            target_high,
        ),
    decreases items.len(),
{
    if items.len() > 0 {
        lemma_batch_partition(items.drop_last(), target_low, target_high);
    }
}

/// A batch with exactly one unparsable reading yields all the other
/// readings normalized and exactly one reported error — never zero
/// successes for one bad item.
pub proof fn lemma_batch_one_failure(items: Seq<GlucoseItem>, target_low: i64, target_high: i64)
    requires
        spec_bad_count(items, target_low, target_high) == 1,
    ensures
        spec_batch_ok(items, target_low, target_high).len() == items.len() - 1,
        spec_batch_errs(items, target_low, target_high).len() == 1,
{
    lemma_batch_partition(items, target_low, target_high);
}

/// Feed every raw item of a fetched graph through the normalizer, against
/// the connection's own thresholds, preserving the order the service
/// delivered.
pub fn process_graph(data: &Data) -> (r: (Vec<LibreCgmData>, Vec<(usize, NormalizationError)>))
    ensures
        r.0@ == spec_batch_ok(
            data.graph_data@,
            data.connection.target_low,
            data.connection.target_high,
        ),
        r.1@ == spec_batch_errs(
            data.graph_data@,
            data.connection.target_low,
            data.connection.target_high,
        ),
{
    normalize_batch(&data.graph_data, data.connection.target_low, data.connection.target_high)
}

} // verus!
