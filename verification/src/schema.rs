//! The store's schema vocabulary: table, index and column names, column
//! declarations, and the definitions of the three tables and three indexes
//! that the initial migration creates.

use vstd::prelude::*;

verus! {

/// The tables of the health store.
#[derive(Clone, Copy, Debug, PartialEq, Eq, Structural)]
pub enum TableName {
    HealthMetrics,
    VitalScores,
    Trends,
}

/// The indexes of the health store.
#[derive(Clone, Copy, Debug, PartialEq, Eq, Structural)]
pub enum IndexName {
    HealthMetricsDate,
    VitalScoresDate,
    TrendsMetricTimeframe,
}

/// Every column name that occurs in some table of the store.
#[derive(Clone, Copy, Debug, PartialEq, Eq, Structural)]
pub enum ColumnName {
    Id,
    Date,
    BodyBattery,
    SleepScore,
    SleepDurationSeconds,
    DeepSleepSeconds,
    RemSleepSeconds,
    StressAvg,
    RestingHr,
    HrvAvg,
    IntensityMinutes,
    Steps,
    CreatedAt,
    UpdatedAt,
    Score,
    SleepComponent,
    RecoveryComponent,
    StrainComponent,
    Recommendation,
    Metric,
    Timeframe,
    Baseline,
    CurrentAvg,
    PercentChange,
    Direction,
    DetectedAt,
}

/// The storage classes a column may have.
#[derive(Clone, Copy, Debug, PartialEq, Eq, Structural)]
pub enum ColumnType {
    Integer,
    Text,
    Real,
}

/// One column declaration: its name, type, nullability and constraints.
#[derive(Clone, Copy, Debug, PartialEq, Eq, Structural)]
pub struct ColumnDef {
    pub name: ColumnName,
    pub ty: ColumnType,
    pub not_null: bool,
    pub unique: bool,
    pub primary_key_autoincrement: bool,
    pub default_current_timestamp: bool,
}

/// A table definition as the mathematical value the contracts speak of.
#[verifier::ext_equal]
pub ghost struct TableDefView {
    pub name: TableName,
    pub columns: Seq<ColumnDef>,
    /// A table-level UNIQUE constraint over a pair of columns, if any.
    pub composite_unique: Option<(ColumnName, ColumnName)>,
}

/// A table definition: name, ordered columns, and an optional table-level
/// UNIQUE constraint over a pair of columns.
#[derive(Clone, Debug, PartialEq, Eq)]
pub struct TableDef {
    pub name: TableName,
    pub columns: Vec<ColumnDef>,
    pub composite_unique: Option<(ColumnName, ColumnName)>,
}

impl View for TableDef {
    type V = TableDefView;

    open spec fn view(&self) -> TableDefView {
        TableDefView { name: self.name, columns: self.columns@, composite_unique: self.composite_unique }
    }
}

impl TableDef {
    /// A fresh copy of this table definition.
    pub fn duplicate(&self) -> (t: TableDef)
        ensures
            t@ == self@,
    {
        let mut columns: Vec<ColumnDef> = Vec::new();
        let mut i: usize = 0;
        while i < self.columns.len()
            invariant
                i <= self.columns.len(),
                columns@ =~= self.columns@.take(i as int),
            decreases self.columns.len() - i,
        {
            columns.push(self.columns[i]);
            i = i + 1;
        }
        proof {
            assert(columns@ =~= self.columns@);
        }
        TableDef { name: self.name, columns, composite_unique: self.composite_unique }
    }
}

/// An index definition as the mathematical value the contracts speak of.
#[verifier::ext_equal]
pub ghost struct IndexDefView {
    pub name: IndexName,
    pub table: TableName,
    pub columns: Seq<ColumnName>,
}

/// An index definition: its name, the table it belongs to, and the columns
/// it covers, in order.
#[derive(Clone, Debug, PartialEq, Eq)]
pub struct IndexDef {
    pub name: IndexName,
    pub table: TableName,
    pub columns: Vec<ColumnName>,
}

impl View for IndexDef {
    type V = IndexDefView;

    open spec fn view(&self) -> IndexDefView {
        IndexDefView { name: self.name, table: self.table, columns: self.columns@ }
    }
}

impl IndexDef {
    /// A fresh copy of this index definition.
    pub fn duplicate(&self) -> (ix: IndexDef)
        ensures
            ix@ == self@,
    {
        let mut columns: Vec<ColumnName> = Vec::new();
        let mut i: usize = 0;
        while i < self.columns.len()
            invariant
                i <= self.columns.len(),
                columns@ =~= self.columns@.take(i as int),
            decreases self.columns.len() - i,
        {
            columns.push(self.columns[i]);
            i = i + 1;
        }
        proof {
            assert(columns@ =~= self.columns@);
        }
        IndexDef { name: self.name, table: self.table, columns }
    }
}

/// A plain optional INTEGER column.
pub open spec fn integer_column(name: ColumnName) -> ColumnDef {
    ColumnDef {
        name,
        ty: ColumnType::Integer,
        not_null: false,
        unique: false,
        primary_key_autoincrement: false,
        default_current_timestamp: false,
    }
}

/// A plain optional REAL column.
pub open spec fn real_column(name: ColumnName) -> ColumnDef {
    ColumnDef {
        name,
        ty: ColumnType::Real,
        not_null: false,
        unique: false,
        primary_key_autoincrement: false,
        default_current_timestamp: false,
    }
}

/// A plain optional TEXT column.
pub open spec fn text_column(name: ColumnName) -> ColumnDef {
    ColumnDef {
        name,
        ty: ColumnType::Text,
        not_null: false,
        unique: false,
        primary_key_autoincrement: false,
        default_current_timestamp: false,
    }
}

/// The INTEGER PRIMARY KEY AUTOINCREMENT column that opens every table.
pub open spec fn id_column() -> ColumnDef {
    ColumnDef {
        name: ColumnName::Id,
        ty: ColumnType::Integer,
        not_null: false,
        unique: false,
        primary_key_autoincrement: true,
        default_current_timestamp: false,
    }
}

/// A TEXT NOT NULL UNIQUE key column (the `date` of the daily tables).
pub open spec fn unique_text_column(name: ColumnName) -> ColumnDef {
    ColumnDef {
        name,
        ty: ColumnType::Text,
        not_null: true,
        unique: true,
        primary_key_autoincrement: false,
        default_current_timestamp: false,
    }
}

/// A TEXT NOT NULL column without a column-level UNIQUE constraint.
pub open spec fn required_text_column(name: ColumnName) -> ColumnDef {
    ColumnDef {
        name,
        ty: ColumnType::Text,
        not_null: true,
        unique: false,
        primary_key_autoincrement: false,
        default_current_timestamp: false,
    }
}

/// An INTEGER NOT NULL column (the composite `score`).
pub open spec fn required_integer_column(name: ColumnName) -> ColumnDef {
    ColumnDef {
        name,
        ty: ColumnType::Integer,
        not_null: true,
        unique: false,
        primary_key_autoincrement: false,
        default_current_timestamp: false,
    }
}

/// A TEXT column that defaults to the insertion timestamp.
pub open spec fn timestamp_column(name: ColumnName) -> ColumnDef {
    ColumnDef {
        name,
        ty: ColumnType::Text,
        not_null: false,
        unique: false,
        primary_key_autoincrement: false,
        default_current_timestamp: true,
    }
}

/// The columns of `health_metrics`: one row of daily measurements, keyed by
/// its unique `date`, every measurement optional.
pub open spec fn health_metrics_columns() -> Seq<ColumnDef> {
    seq![
        id_column(),
        unique_text_column(ColumnName::Date),
        integer_column(ColumnName::BodyBattery),
        integer_column(ColumnName::SleepScore),
        integer_column(ColumnName::SleepDurationSeconds),
        integer_column(ColumnName::DeepSleepSeconds),
        integer_column(ColumnName::RemSleepSeconds),
        integer_column(ColumnName::StressAvg),
        integer_column(ColumnName::RestingHr),
        integer_column(ColumnName::HrvAvg),
        integer_column(ColumnName::IntensityMinutes),
        integer_column(ColumnName::Steps),
        timestamp_column(ColumnName::CreatedAt),
        timestamp_column(ColumnName::UpdatedAt),
    ]
}

/// The columns of `vital_scores`: a required composite `score` per unique
/// `date`, with optional components and a free-text recommendation.
pub open spec fn vital_scores_columns() -> Seq<ColumnDef> {
    seq![
        id_column(),
        unique_text_column(ColumnName::Date),
        required_integer_column(ColumnName::Score),
        integer_column(ColumnName::SleepComponent),
        integer_column(ColumnName::RecoveryComponent),
        integer_column(ColumnName::StrainComponent),
        text_column(ColumnName::Recommendation),
        timestamp_column(ColumnName::CreatedAt),
    ]
}

/// The columns of `trends`: a detected directional change of a named metric
/// over a named timeframe, unique per `(metric, timeframe)`.
pub open spec fn trends_columns() -> Seq<ColumnDef> {
    seq![
        id_column(),
        required_text_column(ColumnName::Metric),
        required_text_column(ColumnName::Timeframe),
        real_column(ColumnName::Baseline),
        real_column(ColumnName::CurrentAvg),
        real_column(ColumnName::PercentChange),
        text_column(ColumnName::Direction),
        timestamp_column(ColumnName::DetectedAt),
    ]
}

/// The `health_metrics` table definition.
pub open spec fn health_metrics_def() -> TableDefView {
    TableDefView {
        name: TableName::HealthMetrics,
        columns: health_metrics_columns(),
        composite_unique: None,
    }
}

/// The `vital_scores` table definition.
pub open spec fn vital_scores_def() -> TableDefView {
    TableDefView {
        name: TableName::VitalScores,
        columns: vital_scores_columns(),
        composite_unique: None,
    }
}

/// The `trends` table definition, with its UNIQUE(metric, timeframe)
/// constraint.
pub open spec fn trends_def() -> TableDefView {
    TableDefView {
        name: TableName::Trends,
        columns: trends_columns(),
        composite_unique: Some((ColumnName::Metric, ColumnName::Timeframe)),
    }
}

/// The index on `health_metrics(date)`.
pub open spec fn health_metrics_date_index_def() -> IndexDefView {
    IndexDefView {
        name: IndexName::HealthMetricsDate,
        table: TableName::HealthMetrics,
        columns: seq![ColumnName::Date],
    }
}

/// The index on `vital_scores(date)`.
pub open spec fn vital_scores_date_index_def() -> IndexDefView {
    IndexDefView {
        name: IndexName::VitalScoresDate,
        table: TableName::VitalScores,
        columns: seq![ColumnName::Date],
    }
}

/// The index on `trends(metric, timeframe)`.
pub open spec fn trends_index_def() -> IndexDefView {
    IndexDefView {
        name: IndexName::TrendsMetricTimeframe,
        table: TableName::Trends,
        columns: seq![ColumnName::Metric, ColumnName::Timeframe],
    }
}

/// Builds the `health_metrics` table definition.
pub fn health_metrics_table() -> (t: TableDef)
    ensures
        t@ == health_metrics_def(),
{
    let mut columns: Vec<ColumnDef> = Vec::new();
    columns.push(ColumnDef {
        name: ColumnName::Id,
        ty: ColumnType::Integer,
        not_null: false,
        unique: false,
        primary_key_autoincrement: true,
        default_current_timestamp: false,
    });
    columns.push(ColumnDef {
        name: ColumnName::Date,
        ty: ColumnType::Text,
        not_null: true,
        unique: true,
        primary_key_autoincrement: false,
        default_current_timestamp: false,
    });
    push_optional_integer(&mut columns, ColumnName::BodyBattery);
    push_optional_integer(&mut columns, ColumnName::SleepScore);
    push_optional_integer(&mut columns, ColumnName::SleepDurationSeconds);
    push_optional_integer(&mut columns, ColumnName::DeepSleepSeconds);
    push_optional_integer(&mut columns, ColumnName::RemSleepSeconds);
    push_optional_integer(&mut columns, ColumnName::StressAvg);
    push_optional_integer(&mut columns, ColumnName::RestingHr);
    push_optional_integer(&mut columns, ColumnName::HrvAvg);
    push_optional_integer(&mut columns, ColumnName::IntensityMinutes);
    push_optional_integer(&mut columns, ColumnName::Steps);
    push_timestamp(&mut columns, ColumnName::CreatedAt);
    push_timestamp(&mut columns, ColumnName::UpdatedAt);
    proof {
        assert(columns@ =~= health_metrics_columns());
    }
    TableDef { name: TableName::HealthMetrics, columns, composite_unique: None }
}

/// Builds the `vital_scores` table definition.
pub fn vital_scores_table() -> (t: TableDef)
    ensures
        t@ == vital_scores_def(),
{
    let mut columns: Vec<ColumnDef> = Vec::new();
    columns.push(ColumnDef {
        name: ColumnName::Id,
        ty: ColumnType::Integer,
        not_null: false,
        unique: false,
        primary_key_autoincrement: true,
        default_current_timestamp: false,
    });
    columns.push(ColumnDef {
        name: ColumnName::Date,
        ty: ColumnType::Text,
        not_null: true,
        unique: true,
        primary_key_autoincrement: false,
        default_current_timestamp: false,
    });
    columns.push(ColumnDef {
        name: ColumnName::Score,
        ty: ColumnType::Integer,
        not_null: true,
        unique: false,
        primary_key_autoincrement: false,
        default_current_timestamp: false,
    });
    push_optional_integer(&mut columns, ColumnName::SleepComponent);
    push_optional_integer(&mut columns, ColumnName::RecoveryComponent);
    push_optional_integer(&mut columns, ColumnName::StrainComponent);
    push_optional_text(&mut columns, ColumnName::Recommendation);
    push_timestamp(&mut columns, ColumnName::CreatedAt);
    proof {
        assert(columns@ =~= vital_scores_columns());
    }
    TableDef { name: TableName::VitalScores, columns, composite_unique: None }
}

/// Builds the `trends` table definition.
pub fn trends_table() -> (t: TableDef)
    ensures
        t@ == trends_def(),
{
    let mut columns: Vec<ColumnDef> = Vec::new();
    columns.push(ColumnDef {
        name: ColumnName::Id,
        ty: ColumnType::Integer,
        not_null: false,
        unique: false,
        primary_key_autoincrement: true,
        default_current_timestamp: false,
    });
    columns.push(ColumnDef {
        name: ColumnName::Metric,
        ty: ColumnType::Text,
        not_null: true,
        unique: false,
        primary_key_autoincrement: false,
        default_current_timestamp: false,
    });
    columns.push(ColumnDef {
        name: ColumnName::Timeframe,
        ty: ColumnType::Text,
        not_null: true,
        unique: false,
        primary_key_autoincrement: false,
        default_current_timestamp: false,
    });
    push_optional_real(&mut columns, ColumnName::Baseline);
    push_optional_real(&mut columns, ColumnName::CurrentAvg);
    push_optional_real(&mut columns, ColumnName::PercentChange);
    push_optional_text(&mut columns, ColumnName::Direction);
    push_timestamp(&mut columns, ColumnName::DetectedAt);
    proof {
        assert(columns@ =~= trends_columns());
    }
    TableDef {
        name: TableName::Trends,
        columns,
        composite_unique: Some((ColumnName::Metric, ColumnName::Timeframe)),
    }
}

/// Builds the index on `health_metrics(date)`.
pub fn health_metrics_date_index() -> (ix: IndexDef)
    ensures
        ix@ == health_metrics_date_index_def(),
{
    let mut columns: Vec<ColumnName> = Vec::new();
    columns.push(ColumnName::Date);
    proof {
        assert(columns@ =~= health_metrics_date_index_def().columns);
    }
    IndexDef { name: IndexName::HealthMetricsDate, table: TableName::HealthMetrics, columns }
}

/// Builds the index on `vital_scores(date)`.
pub fn vital_scores_date_index() -> (ix: IndexDef)
    ensures
        ix@ == vital_scores_date_index_def(),
{
    let mut columns: Vec<ColumnName> = Vec::new();
    columns.push(ColumnName::Date);
    proof {
        assert(columns@ =~= vital_scores_date_index_def().columns);
    }
    IndexDef { name: IndexName::VitalScoresDate, table: TableName::VitalScores, columns }
}

/// Builds the index on `trends(metric, timeframe)`.
pub fn trends_index() -> (ix: IndexDef)
    ensures
        ix@ == trends_index_def(),
{
    let mut columns: Vec<ColumnName> = Vec::new();
    columns.push(ColumnName::Metric);
    columns.push(ColumnName::Timeframe);
    proof {
        assert(columns@ =~= trends_index_def().columns);
    }
    IndexDef { name: IndexName::TrendsMetricTimeframe, table: TableName::Trends, columns }
}

fn push_optional_integer(columns: &mut Vec<ColumnDef>, name: ColumnName)
    ensures
        final(columns)@ == old(columns)@.push(integer_column(name)),
{
    columns.push(ColumnDef {
        name,
        ty: ColumnType::Integer,
        not_null: false,
        unique: false,
        primary_key_autoincrement: false,
        default_current_timestamp: false,
    });
}

fn push_optional_real(columns: &mut Vec<ColumnDef>, name: ColumnName)
    ensures
        final(columns)@ == old(columns)@.push(real_column(name)),
{
    columns.push(ColumnDef {
        name,
        ty: ColumnType::Real,
        not_null: false,
        unique: false,
        primary_key_autoincrement: false,
        default_current_timestamp: false,
    });
}

fn push_optional_text(columns: &mut Vec<ColumnDef>, name: ColumnName)
    ensures
        final(columns)@ == old(columns)@.push(text_column(name)),
{
    columns.push(ColumnDef {
        name,
        ty: ColumnType::Text,
        not_null: false,
        unique: false,
        primary_key_autoincrement: false,
        default_current_timestamp: false,
    });
}

fn push_timestamp(columns: &mut Vec<ColumnDef>, name: ColumnName)
    ensures
        final(columns)@ == old(columns)@.push(timestamp_column(name)),
{
    columns.push(ColumnDef {
        name,
        ty: ColumnType::Text,
        not_null: false,
        unique: false,
        primary_key_autoincrement: false,
        default_current_timestamp: true,
    });
}

} // verus!
