//! Migration behaviour: what a fresh run creates, that re-runs are no-ops,
//! and how the unguarded index statements fail on a raw re-run.

use summit_store::migration::{migrations, initial_statement_batch, SchemaError, Statement};
use summit_store::schema::{
    health_metrics_date_index, health_metrics_table, trends_index, trends_table,
    vital_scores_date_index, vital_scores_table, ColumnName, ColumnType, IndexName, TableName,
};
use summit_store::store::Store;

#[test]
fn fresh_store_is_empty() {
    let store = Store::new();
    assert_eq!(store.table_count(), 0);
    assert_eq!(store.index_count(), 0);
    assert_eq!(store.applied_count(), 0);
    assert_eq!(store.health_metric_count(), 0);
    assert_eq!(store.vital_score_count(), 0);
    assert_eq!(store.trend_count(), 0);
    assert!(!store.has_table(TableName::HealthMetrics));
    assert!(!store.version_applied(1));
}

#[test]
fn initial_migration_creates_three_tables_and_three_indexes() {
    let mut store = Store::new();
    let result = store.apply_migrations(&migrations());
    assert_eq!(result, Ok(()));
    assert_eq!(store.table_count(), 3);
    assert_eq!(store.index_count(), 3);
    assert!(store.has_table(TableName::HealthMetrics));
    assert!(store.has_table(TableName::VitalScores));
    assert!(store.has_table(TableName::Trends));
    assert!(store.has_index(IndexName::HealthMetricsDate));
    assert!(store.has_index(IndexName::VitalScoresDate));
    assert!(store.has_index(IndexName::TrendsMetricTimeframe));
    assert!(store.version_applied(1));
    assert_eq!(store.applied_count(), 1);
    assert_eq!(store.health_metric_count(), 0);
    assert_eq!(store.vital_score_count(), 0);
    assert_eq!(store.trend_count(), 0);
}

#[test]
fn created_tables_carry_the_declared_columns() {
    let mut store = Store::new();
    store.apply_migrations(&migrations()).unwrap();

    assert_eq!(store.table(TableName::HealthMetrics).unwrap(), &health_metrics_table());
    assert_eq!(store.table(TableName::VitalScores).unwrap(), &vital_scores_table());
    assert_eq!(store.table(TableName::Trends).unwrap(), &trends_table());
    assert_eq!(store.index(IndexName::HealthMetricsDate).unwrap(), &health_metrics_date_index());
    assert_eq!(store.index(IndexName::VitalScoresDate).unwrap(), &vital_scores_date_index());
    assert_eq!(store.index(IndexName::TrendsMetricTimeframe).unwrap(), &trends_index());

    let health = store.table(TableName::HealthMetrics).unwrap();
    assert_eq!(health.columns.len(), 14);
    let date = &health.columns[1];
    assert_eq!(date.name, ColumnName::Date);
    assert_eq!(date.ty, ColumnType::Text);
    assert!(date.not_null);
    assert!(date.unique);

    let vitals = store.table(TableName::VitalScores).unwrap();
    assert_eq!(vitals.columns.len(), 8);
    let score = &vitals.columns[2];
    assert_eq!(score.name, ColumnName::Score);
    assert_eq!(score.ty, ColumnType::Integer);
    assert!(score.not_null);
    assert!(!score.unique);

    let trends = store.table(TableName::Trends).unwrap();
    assert_eq!(trends.columns.len(), 8);
    assert_eq!(trends.composite_unique, Some((ColumnName::Metric, ColumnName::Timeframe)));
    let baseline = &trends.columns[3];
    assert_eq!(baseline.name, ColumnName::Baseline);
    assert_eq!(baseline.ty, ColumnType::Real);
    assert!(!baseline.not_null);
}

#[test]
fn migration_metadata_matches_the_declared_step() {
    let set = migrations();
    assert_eq!(set.len(), 1);
    assert_eq!(set[0].version, 1);
    assert_eq!(set[0].description, "create initial tables");
    assert_eq!(set[0].statements.len(), 6);
    match &set[0].statements[0] {
        Statement::CreateTable { if_not_exists, def } => {
            assert!(*if_not_exists);
            assert_eq!(def.name, TableName::HealthMetrics);
        }
        other => panic!("expected a CREATE TABLE statement, got {:?}", other),
    }
    match &set[0].statements[3] {
        Statement::CreateIndex { if_not_exists, def } => {
            assert!(!*if_not_exists);
            assert_eq!(def.name, IndexName::HealthMetricsDate);
        }
        other => panic!("expected a CREATE INDEX statement, got {:?}", other),
    }
}

#[test]
fn reapplying_the_migration_set_is_a_noop() {
    let mut store = Store::new();
    store.apply_migrations(&migrations()).unwrap();
    let again = store.apply_migrations(&migrations());
    assert_eq!(again, Ok(()));
    assert_eq!(store.table_count(), 3);
    assert_eq!(store.index_count(), 3);
    assert_eq!(store.applied_count(), 1);
}

#[test]
fn raw_batch_rerun_fails_at_the_unguarded_index() {
    let mut store = Store::new();
    store.apply_migrations(&migrations()).unwrap();
    let rerun = store.apply_batch(&initial_statement_batch());
    assert_eq!(rerun, Err(SchemaError::IndexAlreadyExists(IndexName::HealthMetricsDate)));
    assert_eq!(store.table_count(), 3);
    assert_eq!(store.index_count(), 3);
}

#[test]
fn unguarded_create_table_fails_on_second_run() {
    let mut store = Store::new();
    let mut batch: Vec<Statement> = Vec::new();
    batch.push(Statement::CreateTable { if_not_exists: false, def: trends_table() });
    assert_eq!(store.apply_batch(&batch), Ok(()));
    assert_eq!(
        store.apply_batch(&batch),
        Err(SchemaError::TableAlreadyExists(TableName::Trends)),
    );
}

#[test]
fn create_index_without_its_table_fails() {
    let mut store = Store::new();
    let mut batch: Vec<Statement> = Vec::new();
    batch.push(Statement::CreateIndex { if_not_exists: false, def: trends_index() });
    assert_eq!(store.apply_batch(&batch), Err(SchemaError::MissingTable(TableName::Trends)));
    assert_eq!(store.index_count(), 0);
}

#[test]
fn guarded_create_table_is_a_noop_on_second_run() {
    let mut store = Store::new();
    let mut batch: Vec<Statement> = Vec::new();
    batch.push(Statement::CreateTable { if_not_exists: true, def: trends_table() });
    assert_eq!(store.apply_batch(&batch), Ok(()));
    assert_eq!(store.apply_batch(&batch), Ok(()));
    assert_eq!(store.table_count(), 1);
}

#[test]
fn failed_batch_keeps_earlier_statements_applied() {
    let mut store = Store::new();
    let mut batch: Vec<Statement> = Vec::new();
    batch.push(Statement::CreateTable { if_not_exists: true, def: health_metrics_table() });
    batch.push(Statement::CreateIndex { if_not_exists: false, def: trends_index() });
    assert_eq!(store.apply_batch(&batch), Err(SchemaError::MissingTable(TableName::Trends)));
    assert!(store.has_table(TableName::HealthMetrics));
    assert!(!store.version_applied(1));
}
