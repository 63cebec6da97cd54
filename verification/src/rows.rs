//! The rows the store holds and the values they are made of: calendar dates,
//! insertion timestamps, uninterpreted REAL payloads, the per-table insert
//! records (every optional column an `Option`), and the constraint
//! violations an insert can fail with.

use vstd::prelude::*;

use crate::schema::ColumnName;
use crate::schema::TableName;

verus! {

/// A calendar date, carried as plain year, month and day. The store keys
/// daily rows by it and never computes with it.
#[derive(Clone, Copy, Debug, PartialEq, Eq, Structural, Hash)]
pub struct Date {
    pub year: u32,
    pub month: u8,
    pub day: u8,
}

/// An insertion timestamp, carried as seconds since the Unix epoch. The
/// clock lives outside the store: callers hand the current time in, and the
/// store only records it.
#[derive(Clone, Copy, Debug, PartialEq, Eq, Structural)]
pub struct Timestamp {
    pub unix_seconds: i64,
}

/// A REAL column value, carried as the raw 64-bit encoding of the number.
/// The store never computes with these payloads; it stores and returns them
/// unchanged.
#[derive(Clone, Copy, Debug, PartialEq, Eq, Structural)]
pub struct RealBits {
    pub bits: u64,
}

/// The measurements of one `health_metrics` insert: a day may carry partial
/// data, so every measurement is optional.
#[derive(Clone, Copy, Debug, PartialEq, Eq)]
pub struct HealthMetricInput {
    pub body_battery: Option<i64>,
    pub sleep_score: Option<i64>,
    pub sleep_duration_seconds: Option<i64>,
    pub deep_sleep_seconds: Option<i64>,
    pub rem_sleep_seconds: Option<i64>,
    pub stress_avg: Option<i64>,
    pub resting_hr: Option<i64>,
    pub hrv_avg: Option<i64>,
    pub intensity_minutes: Option<i64>,
    pub steps: Option<i64>,
}

/// One stored `health_metrics` row: at most one per date.
#[derive(Clone, Copy, Debug, PartialEq, Eq)]
pub struct HealthMetricRow {
    pub date: Date,
    pub metrics: HealthMetricInput,
    pub created_at: Timestamp,
    pub updated_at: Timestamp,
}

/// The values of one `vital_scores` insert. `score` is declared NOT NULL:
/// an insert that omits it fails; every other value may be omitted.
#[derive(Clone, Debug, PartialEq, Eq)]
pub struct VitalScoreInput {
    pub score: Option<i64>,
    pub sleep_component: Option<i64>,
    pub recovery_component: Option<i64>,
    pub strain_component: Option<i64>,
    pub recommendation: Option<String>,
}

/// One stored `vital_scores` row: exactly one per date, with its required
/// composite score.
#[derive(Clone, Debug, PartialEq, Eq)]
pub struct VitalScoreRow {
    pub date: Date,
    pub score: i64,
    pub sleep_component: Option<i64>,
    pub recovery_component: Option<i64>,
    pub strain_component: Option<i64>,
    pub recommendation: Option<String>,
    pub created_at: Timestamp,
}

/// The values of one `trends` insert: the metric and timeframe names are
/// required; the numeric payloads and direction are optional.
#[derive(Clone, Debug, PartialEq, Eq)]
pub struct TrendInput {
    pub metric: String,
    pub timeframe: String,
    pub baseline: Option<RealBits>,
    pub current_avg: Option<RealBits>,
    pub percent_change: Option<RealBits>,
    pub direction: Option<String>,
}

/// One stored `trends` row: at most one per `(metric, timeframe)` pair.
#[derive(Clone, Debug, PartialEq, Eq)]
pub struct TrendRow {
    pub metric: String,
    pub timeframe: String,
    pub baseline: Option<RealBits>,
    pub current_avg: Option<RealBits>,
    pub percent_change: Option<RealBits>,
    pub direction: Option<String>,
    pub detected_at: Timestamp,
}

/// Why an insert was rejected. Violations are surfaced to the caller as
/// recoverable errors, never swallowed.
#[derive(Clone, Copy, Debug, PartialEq, Eq, Structural)]
pub enum ConstraintViolation {
    /// A second row would share a value of a UNIQUE column.
    Unique { table: TableName, column: ColumnName },
    /// A second row would share a value of a table-level UNIQUE pair.
    UniquePair { table: TableName, first: ColumnName, second: ColumnName },
    /// A required (NOT NULL) column was omitted.
    NotNull { table: TableName, column: ColumnName },
}

} // verus!
