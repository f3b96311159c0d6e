use libre_link_up_api_client::client::{normalize, normalize_batch, process_graph, LibreCgmData};
use libre_link_up_api_client::errors::NormalizationError;
use libre_link_up_api_client::graph::{
    AlarmRules, Connection, Data, Device, FixedLowAlarmValues, GlucoseItem, Nd, Sensor, Std, F, H,
};
use libre_link_up_api_client::thresholds::evaluate_thresholds;
use libre_link_up_api_client::trend::{classify_trend, TrendType};

fn item(ts: &str, value: i64, trend: Option<i32>) -> GlucoseItem {
    GlucoseItem {
        factory_timestamp: ts.to_owned(),
        timestamp: String::new(),
        item_type: 0,
        value_in_mg_per_dl: value,
        trend_arrow: trend,
        measurement_color: 1,
        glucose_units: 1,
        value,
        is_high: false,
        is_low: false,
    }
}

fn sensor() -> Sensor {
    Sensor { device_id: String::new(), sn: String::new(), a: 0, w: 0, pt: 0 }
}

fn device() -> Device {
    Device {
        did: String::new(),
        dtid: 0,
        v: String::new(),
        ll: 700,
        hl: 2400,
        u: 0,
        fixed_low_alarm_values: FixedLowAlarmValues { mgdl: 600, mmoll: 33 },
        alarms: false,
    }
}

fn connection(target_low: i64, target_high: i64) -> Connection {
    Connection {
        id: String::new(),
        patient_id: String::new(),
        country: "us".to_owned(),
        status: 0,
        first_name: String::new(),
        last_name: String::new(),
        target_low,
        target_high,
        uom: 1,
        sensor: sensor(),
        alarm_rules: AlarmRules {
            c: false,
            h: H { on: false, th: 0, thmm: 0, d: 0, f: 0 },
            f: F { th: 0, thmm: 0, d: 0, tl: 0, tlmm: 0, on: None },
            l: F { th: 0, thmm: 0, d: 0, tl: 0, tlmm: 0, on: None },
            nd: Nd { i: 0, r: 0, l: 0 },
            p: 0,
            r: 0,
            standard: Std {},
        },
        glucose_measurement: item("1/2/1970 12:00:00 AM", 1000, Some(3)),
        glucose_item: item("1/2/1970 12:00:00 AM", 1000, Some(3)),
        patient_device: device(),
        created: 0,
    }
}

#[test]
fn trend_table_exact() {
    assert_eq!(classify_trend(Some(1)), TrendType::SingleDown);
    assert_eq!(classify_trend(Some(2)), TrendType::FortyFiveDown);
    assert_eq!(classify_trend(Some(3)), TrendType::Flat);
    assert_eq!(classify_trend(Some(4)), TrendType::FortyFiveUp);
    assert_eq!(classify_trend(Some(5)), TrendType::SingleUp);
}

#[test]
fn trend_other_codes_not_computable() {
    assert_eq!(classify_trend(None), TrendType::NotComputable);
    assert_eq!(classify_trend(Some(0)), TrendType::NotComputable);
    assert_eq!(classify_trend(Some(6)), TrendType::NotComputable);
    assert_eq!(classify_trend(Some(-1)), TrendType::NotComputable);
    assert_eq!(classify_trend(Some(i32::MAX)), TrendType::NotComputable);
}

#[test]
fn threshold_strict_both_ways() {
    // above high
    assert_eq!(evaluate_thresholds(1810, 700, 1800), (true, false));
    // below low
    assert_eq!(evaluate_thresholds(690, 700, 1800), (false, true));
    // inside the band
    assert_eq!(evaluate_thresholds(1000, 700, 1800), (false, false));
}

#[test]
fn threshold_boundary_neither_flag() {
    // exactly at the high threshold: neither high nor low
    assert_eq!(evaluate_thresholds(1800, 700, 1800), (false, false));
    // exactly at the low threshold: neither high nor low
    assert_eq!(evaluate_thresholds(700, 700, 1800), (false, false));
    // degenerate band low == high
    assert_eq!(evaluate_thresholds(700, 700, 700), (false, false));
}

#[test]
fn normalize_passes_value_through() {
    let it = item("9/6/2023 10:35:08 AM", 1230, Some(4));
    let r = normalize(&it, 700, 1800).unwrap();
    assert_eq!(
        r,
        LibreCgmData {
            value: 1230,
            is_high: false,
            is_low: false,
            trend: TrendType::FortyFiveUp,
            date: 1693996508,
        }
    );
}

#[test]
fn normalize_flags_high_reading() {
    let it = item("12/31/2024 11:59:59 PM", 2500, Some(5));
    let r = normalize(&it, 700, 1800).unwrap();
    assert!(r.is_high);
    assert!(!r.is_low);
    assert_eq!(r.date, 1735689599);
    assert_eq!(r.trend, TrendType::SingleUp);
}

#[test]
fn normalize_bad_timestamp_is_error() {
    let it = item("not a timestamp", 1000, Some(3));
    assert_eq!(normalize(&it, 700, 1800), Err(NormalizationError::InvalidTimestamp));
}

#[test]
fn batch_one_bad_item_keeps_the_rest() {
    let items = vec![
        item("1/2/1970 12:00:00 AM", 900, Some(3)),
        item("2/29/2023 1:00:00 AM", 1000, Some(3)), // 2023 is not a leap year
        item("2/29/2024 12:00:00 PM", 1100, Some(2)),
        item("6/15/1985 1:05:09 PM", 1200, None),
    ];
    let (oks, errs) = normalize_batch(&items, 700, 1800);
    assert_eq!(oks.len(), 3);
    assert_eq!(errs.len(), 1);
    assert_eq!(errs[0], (1, NormalizationError::InvalidTimestamp));
    // order preserved
    assert_eq!(oks[0].value, 900);
    assert_eq!(oks[0].date, 86400);
    assert_eq!(oks[1].value, 1100);
    assert_eq!(oks[1].date, 1709208000);
    assert_eq!(oks[2].value, 1200);
    assert_eq!(oks[2].date, 487688709);
    assert_eq!(oks[2].trend, TrendType::NotComputable);
}

#[test]
fn batch_all_good_no_errors() {
    let items = vec![
        item("1/1/1970 12:00:00 AM", 650, Some(1)),
        item("1/2/1970 12:00:00 AM", 1900, Some(5)),
    ];
    let (oks, errs) = normalize_batch(&items, 700, 1800);
    assert_eq!(errs.len(), 0);
    assert_eq!(oks.len(), 2);
    assert_eq!(oks[0].date, 0);
    assert!(oks[0].is_low);
    assert!(!oks[0].is_high);
    assert!(oks[1].is_high);
}

#[test]
fn batch_empty_is_empty() {
    let items: Vec<GlucoseItem> = Vec::new();
    let (oks, errs) = normalize_batch(&items, 700, 1800);
    assert!(oks.is_empty());
    assert!(errs.is_empty());
}

#[test]
fn process_graph_uses_connection_thresholds() {
    let data = Data {
        connection: connection(700, 1800),
        active_sensors: Vec::new(),
        graph_data: vec![
            item("1/2/1970 12:00:00 AM", 1850, Some(3)),
            item("1/2/1970 12:00:00 AM", 650, Some(3)),
        ],
    };
    let (oks, errs) = process_graph(&data);
    assert_eq!(errs.len(), 0);
    assert!(oks[0].is_high && !oks[0].is_low);
    assert!(oks[1].is_low && !oks[1].is_high);
}
