//! Row-level constraints: unique dates, the unique (metric, timeframe)
//! pair, the required vital score, and that stored rows keep the values
//! they were inserted with.

use summit_store::migration::migrations;
use summit_store::rows::{
    ConstraintViolation, Date, HealthMetricInput, RealBits, Timestamp, TrendInput, VitalScoreInput,
};
use summit_store::schema::{ColumnName, TableName};
use summit_store::store::Store;

fn migrated_store() -> Store {
    let mut store = Store::new();
    store.apply_migrations(&migrations()).unwrap();
    store
}

fn day(year: u32, month: u8, day: u8) -> Date {
    Date { year, month, day }
}

fn at(unix_seconds: i64) -> Timestamp {
    Timestamp { unix_seconds }
}

fn empty_metrics() -> HealthMetricInput {
    HealthMetricInput {
        body_battery: None,
        sleep_score: None,
        sleep_duration_seconds: None,
        deep_sleep_seconds: None,
        rem_sleep_seconds: None,
        stress_avg: None,
        resting_hr: None,
        hrv_avg: None,
        intensity_minutes: None,
        steps: None,
    }
}

fn trend(metric: &str, timeframe: &str) -> TrendInput {
    TrendInput {
        metric: metric.to_string(),
        timeframe: timeframe.to_string(),
        baseline: None,
        current_avg: None,
        percent_change: None,
        direction: None,
    }
}

#[test]
fn duplicate_health_metric_date_is_rejected() {
    let mut store = migrated_store();
    let first = store.insert_health_metric(day(2024, 3, 1), empty_metrics(), at(1000));
    assert_eq!(first, Ok(()));
    let second = store.insert_health_metric(day(2024, 3, 1), empty_metrics(), at(2000));
    assert_eq!(
        second,
        Err(ConstraintViolation::Unique {
            table: TableName::HealthMetrics,
            column: ColumnName::Date,
        }),
    );
    assert_eq!(store.health_metric_count(), 1);
}

#[test]
fn distinct_health_metric_dates_are_accepted() {
    let mut store = migrated_store();
    assert_eq!(store.insert_health_metric(day(2024, 3, 1), empty_metrics(), at(1000)), Ok(()));
    assert_eq!(store.insert_health_metric(day(2024, 3, 2), empty_metrics(), at(2000)), Ok(()));
    assert_eq!(store.insert_health_metric(day(2023, 3, 1), empty_metrics(), at(3000)), Ok(()));
    assert_eq!(store.health_metric_count(), 3);
}

#[test]
fn health_metric_row_keeps_its_values() {
    let mut store = migrated_store();
    let metrics = HealthMetricInput {
        body_battery: Some(71),
        sleep_score: Some(84),
        sleep_duration_seconds: Some(27360),
        deep_sleep_seconds: Some(5400),
        rem_sleep_seconds: Some(6300),
        stress_avg: Some(23),
        resting_hr: Some(49),
        hrv_avg: Some(62),
        intensity_minutes: Some(37),
        steps: Some(11204),
    };
    assert_eq!(store.insert_health_metric(day(2024, 7, 19), metrics, at(1721376000)), Ok(()));
    let row = store.health_metric(0).unwrap();
    assert_eq!(row.date, day(2024, 7, 19));
    assert_eq!(row.metrics, metrics);
    assert_eq!(row.created_at, at(1721376000));
    assert_eq!(row.updated_at, at(1721376000));
    assert!(store.health_metric(1).is_none());
}

#[test]
fn vital_score_without_score_is_rejected() {
    let mut store = migrated_store();
    let values = VitalScoreInput {
        score: None,
        sleep_component: Some(30),
        recovery_component: None,
        strain_component: None,
        recommendation: None,
    };
    let result = store.insert_vital_score(day(2024, 3, 1), values, at(1000));
    assert_eq!(
        result,
        Err(ConstraintViolation::NotNull {
            table: TableName::VitalScores,
            column: ColumnName::Score,
        }),
    );
    assert_eq!(store.vital_score_count(), 0);
}

#[test]
fn vital_score_with_only_a_score_is_accepted() {
    let mut store = migrated_store();
    let values = VitalScoreInput {
        score: Some(82),
        sleep_component: None,
        recovery_component: None,
        strain_component: None,
        recommendation: None,
    };
    assert_eq!(store.insert_vital_score(day(2024, 3, 1), values, at(1000)), Ok(()));
    let row = store.vital_score(0).unwrap();
    assert_eq!(row.score, 82);
    assert_eq!(row.sleep_component, None);
    assert_eq!(row.recommendation, None);
}

#[test]
fn duplicate_vital_score_date_is_rejected() {
    let mut store = migrated_store();
    let values = VitalScoreInput {
        score: Some(82),
        sleep_component: Some(28),
        recovery_component: Some(31),
        strain_component: Some(23),
        recommendation: Some("ease off today".to_string()),
    };
    assert_eq!(store.insert_vital_score(day(2024, 3, 1), values.clone(), at(1000)), Ok(()));
    let again = store.insert_vital_score(day(2024, 3, 1), values, at(2000));
    assert_eq!(
        again,
        Err(ConstraintViolation::Unique {
            table: TableName::VitalScores,
            column: ColumnName::Date,
        }),
    );
    assert_eq!(store.vital_score_count(), 1);
}

#[test]
fn duplicate_trend_pair_is_rejected() {
    let mut store = migrated_store();
    assert_eq!(store.insert_trend(trend("resting_hr", "7d"), at(1000)), Ok(()));
    let again = store.insert_trend(trend("resting_hr", "7d"), at(2000));
    assert_eq!(
        again,
        Err(ConstraintViolation::UniquePair {
            table: TableName::Trends,
            first: ColumnName::Metric,
            second: ColumnName::Timeframe,
        }),
    );
    assert_eq!(store.trend_count(), 1);
}

#[test]
fn trend_differing_in_either_field_is_accepted() {
    let mut store = migrated_store();
    assert_eq!(store.insert_trend(trend("resting_hr", "7d"), at(1000)), Ok(()));
    assert_eq!(store.insert_trend(trend("resting_hr", "30d"), at(2000)), Ok(()));
    assert_eq!(store.insert_trend(trend("steps", "7d"), at(3000)), Ok(()));
    assert_eq!(store.trend_count(), 3);
}

#[test]
fn trend_row_keeps_its_values() {
    let mut store = migrated_store();
    let input = TrendInput {
        metric: "hrv_avg".to_string(),
        timeframe: "30d".to_string(),
        baseline: Some(RealBits { bits: 0x404E000000000000 }),
        current_avg: Some(RealBits { bits: 0x404A800000000000 }),
        percent_change: Some(RealBits { bits: 0xC01C000000000000 }),
        direction: Some("down".to_string()),
    };
    assert_eq!(store.insert_trend(input, at(1721376000)), Ok(()));
    let row = store.trend(0).unwrap();
    assert_eq!(row.metric, "hrv_avg");
    assert_eq!(row.timeframe, "30d");
    assert_eq!(row.baseline, Some(RealBits { bits: 0x404E000000000000 }));
    assert_eq!(row.current_avg, Some(RealBits { bits: 0x404A800000000000 }));
    assert_eq!(row.percent_change, Some(RealBits { bits: 0xC01C000000000000 }));
    assert_eq!(row.direction, Some("down".to_string()));
    assert_eq!(row.detected_at, at(1721376000));
}
