//! The store's laws: what holds of migration runs as such, proved once and
//! for all over [`StoreView`] — re-running recorded migrations changes
//! nothing, a successful run records every version, and the unguarded
//! `CREATE INDEX` statements of the initial batch make a raw re-run fail.

use vstd::prelude::*;

use crate::migration::MigrationView;
use crate::migration::SchemaError;
use crate::migration::all_migrations;
use crate::migration::initial_migration;
use crate::migration::initial_statements;
use crate::rows::HealthMetricRow;
use crate::rows::TrendRow;
use crate::rows::VitalScoreRow;
use crate::schema::IndexName;
use crate::schema::TableName;
use crate::schema::health_metrics_date_index_def;
use crate::schema::health_metrics_def;
use crate::schema::trends_def;
use crate::schema::trends_index_def;
use crate::schema::vital_scores_date_index_def;
use crate::schema::vital_scores_def;
use crate::store::StoreView;
use crate::store::apply_batch_spec;
use crate::store::apply_migrations_spec;
use crate::store::apply_statement_spec;
use crate::store::empty_store;
use crate::store::index_present;
use crate::store::lemma_batch_preserves_data;
use crate::store::table_present;
use crate::store::with_index_added;
use crate::store::with_table_added;
use crate::store::with_version_recorded;

verus! {

/// Pushing onto a sequence keeps everything it contained, and makes it
/// contain the pushed element.
proof fn lemma_push_contains<A>(s: Seq<A>, element: A)
    ensures
        s.push(element).contains(element),
        forall|x: A| s.contains(x) ==> s.push(element).contains(x),
{
    assert(s.push(element)[s.len() as int] == element);
    assert forall|x: A| s.contains(x) implies s.push(element).contains(x) by {
        let j = choose|j: int| 0 <= j < s.len() && s[j] == x;
        assert(s.push(element)[j] == x);
    }
}

/// Re-applying a migration list whose every version is already recorded as
/// applied is a no-op: the store is unchanged and no error arises.
pub proof fn lemma_reapply_recorded_is_noop(v: StoreView, migrations: Seq<MigrationView>)
    requires
        forall|i: int|
            0 <= i < migrations.len() ==> v.applied.contains(#[trigger] migrations[i].version),
    ensures
        apply_migrations_spec(v, migrations) == (v, None::<SchemaError>),
    decreases migrations.len(),
{
    if migrations.len() > 0 {
        assert(v.applied.contains(migrations[0].version));
        let rest = migrations.drop_first();
        assert forall|i: int| 0 <= i < rest.len() implies v.applied.contains(
            #[trigger] rest[i].version,
        ) by {
            assert(rest[i] == migrations[i + 1]);
        }
        lemma_reapply_recorded_is_noop(v, rest);
    }
}

/// A successful migration run records every version of the list, and keeps
/// every version that was recorded before it.
pub proof fn lemma_success_records_all(v: StoreView, migrations: Seq<MigrationView>)
    ensures
        apply_migrations_spec(v, migrations).1 is None ==> forall|i: int|
            0 <= i < migrations.len() ==> apply_migrations_spec(v, migrations).0.applied.contains(
                #[trigger] migrations[i].version,
            ),
        apply_migrations_spec(v, migrations).1 is None ==> forall|x: u64|
            v.applied.contains(x) ==> apply_migrations_spec(v, migrations).0.applied.contains(x),
    decreases migrations.len(),
{
    if migrations.len() > 0 && apply_migrations_spec(v, migrations).1 is None {
        let m = migrations[0];
        let rest = migrations.drop_first();
        if v.applied.contains(m.version) {
            lemma_success_records_all(v, rest);
            assert forall|i: int| 0 <= i < migrations.len() implies apply_migrations_spec(
                v,
                migrations,
            ).0.applied.contains(#[trigger] migrations[i].version) by {
                if i > 0 {
                    assert(migrations[i] == rest[i - 1]);
                }
            }
        } else {
            let batch = apply_batch_spec(v, m.statements);
            lemma_batch_preserves_data(v, m.statements);
            let recorded = with_version_recorded(batch.0, m.version);
            lemma_push_contains(batch.0.applied, m.version);
            lemma_success_records_all(recorded, rest);
            assert forall|i: int| 0 <= i < migrations.len() implies apply_migrations_spec(
                v,
                migrations,
            ).0.applied.contains(#[trigger] migrations[i].version) by {
                if i > 0 {
                    assert(migrations[i] == rest[i - 1]);
                } else {
                    assert(recorded.applied.contains(m.version));
                }
            }
        }
    }
}

/// Running the migration set again right after a successful run changes
/// nothing: migration application is idempotent at the version level.
pub proof fn lemma_apply_migrations_idempotent(v: StoreView, migrations: Seq<MigrationView>)
    ensures
        apply_migrations_spec(v, migrations).1 is None ==> apply_migrations_spec(
            apply_migrations_spec(v, migrations).0,
            migrations,
        ) == (apply_migrations_spec(v, migrations).0, None::<SchemaError>),
{
    if apply_migrations_spec(v, migrations).1 is None {
        lemma_success_records_all(v, migrations);
        lemma_reapply_recorded_is_noop(apply_migrations_spec(v, migrations).0, migrations);
    }
}

/// Re-applying the full migration set to a store that already has version 1
/// recorded as applied is a no-op: no error, no duplicate objects.
pub proof fn lemma_version_one_recorded_reapply_is_noop(v: StoreView)
    requires
        v.applied.contains(1u64),
    ensures
        apply_migrations_spec(v, all_migrations()) == (v, None::<SchemaError>),
{
    assert(all_migrations()[0] == initial_migration());
    lemma_reapply_recorded_is_noop(v, all_migrations());
}

/// Re-running the raw initial statement batch against a store that already
/// has the three tables and their indexes — bypassing the migration
/// bookkeeping — fails at the first `CREATE INDEX`, which carries no
/// existence guard. The guarded `CREATE TABLE` statements before it are
/// no-ops, so the store comes through unchanged.
pub proof fn lemma_raw_initial_batch_fails_on_existing_schema(v: StoreView)
    requires
        table_present(v.tables, TableName::HealthMetrics),
        table_present(v.tables, TableName::VitalScores),
        table_present(v.tables, TableName::Trends),
        index_present(v.indexes, IndexName::HealthMetricsDate),
    ensures
        apply_batch_spec(v, initial_statements()) == (
            v,
            Some(SchemaError::IndexAlreadyExists(IndexName::HealthMetricsDate)),
        ),
{
    let s = initial_statements();
    let s1 = s.drop_first();
    let s2 = s1.drop_first();
    let s3 = s2.drop_first();
    assert(s1[0] == s[1]);
    assert(s2[0] == s[2]);
    assert(s3[0] == s[3]);
    assert(apply_statement_spec(v, s[0]) == (v, None::<SchemaError>));
    assert(apply_batch_spec(v, s) == apply_batch_spec(v, s1));
    assert(apply_statement_spec(v, s[1]) == (v, None::<SchemaError>));
    assert(apply_batch_spec(v, s1) == apply_batch_spec(v, s2));
    assert(apply_statement_spec(v, s[2]) == (v, None::<SchemaError>));
    assert(apply_batch_spec(v, s2) == apply_batch_spec(v, s3));
    assert(apply_statement_spec(v, s[3]) == (
        v,
        Some(SchemaError::IndexAlreadyExists(IndexName::HealthMetricsDate)),
    ));
}

/// Applying the migration set to a fresh empty store succeeds and creates
/// exactly the three tables and three indexes, with their declared columns;
/// version 1 is recorded, and no rows appear.
pub proof fn lemma_initial_migration_creates_schema()
    ensures
        apply_migrations_spec(empty_store(), all_migrations()).1 is None,
        apply_migrations_spec(empty_store(), all_migrations()).0.tables == seq![
            health_metrics_def(),
            vital_scores_def(),
            trends_def(),
        ],
        apply_migrations_spec(empty_store(), all_migrations()).0.indexes == seq![
            health_metrics_date_index_def(),
            vital_scores_date_index_def(),
            trends_index_def(),
        ],
        apply_migrations_spec(empty_store(), all_migrations()).0.applied == seq![1u64],
        apply_migrations_spec(empty_store(), all_migrations()).0.health_metrics
            == Seq::<HealthMetricRow>::empty(),
        apply_migrations_spec(empty_store(), all_migrations()).0.vital_scores
            == Seq::<VitalScoreRow>::empty(),
        apply_migrations_spec(empty_store(), all_migrations()).0.trends
            == Seq::<TrendRow>::empty(),
{
    let v0 = empty_store();
    let ms = all_migrations();
    assert(ms[0] == initial_migration());
    assert(!v0.applied.contains(1u64));
    let s = initial_statements();
    let s1 = s.drop_first();
    let s2 = s1.drop_first();
    let s3 = s2.drop_first();
    let s4 = s3.drop_first();
    let s5 = s4.drop_first();
    assert(s1[0] == s[1]);
    assert(s2[0] == s[2]);
    assert(s3[0] == s[3]);
    assert(s4[0] == s[4]);
    assert(s5[0] == s[5]);

    let v1 = with_table_added(v0, health_metrics_def());
    assert(!table_present(v0.tables, TableName::HealthMetrics));
    assert(apply_statement_spec(v0, s[0]) == (v1, None::<SchemaError>));
    assert(apply_batch_spec(v0, s) == apply_batch_spec(v1, s1));

    let v2 = with_table_added(v1, vital_scores_def());
    assert(v1.tables[0] == health_metrics_def());
    assert(!table_present(v1.tables, TableName::VitalScores));
    assert(apply_statement_spec(v1, s[1]) == (v2, None::<SchemaError>));
    assert(apply_batch_spec(v1, s1) == apply_batch_spec(v2, s2));

    let v3 = with_table_added(v2, trends_def());
    assert(v2.tables[0] == health_metrics_def());
    assert(v2.tables[1] == vital_scores_def());
    assert(!table_present(v2.tables, TableName::Trends));
    assert(apply_statement_spec(v2, s[2]) == (v3, None::<SchemaError>));
    assert(apply_batch_spec(v2, s2) == apply_batch_spec(v3, s3));

    assert(v3.tables[0] == health_metrics_def());
    assert(v3.tables[1] == vital_scores_def());
    assert(v3.tables[2] == trends_def());
    assert(table_present(v3.tables, TableName::HealthMetrics));
    assert(table_present(v3.tables, TableName::VitalScores));
    assert(table_present(v3.tables, TableName::Trends));

    let w1 = with_index_added(v3, health_metrics_date_index_def());
    assert(!index_present(v3.indexes, IndexName::HealthMetricsDate));
    assert(apply_statement_spec(v3, s[3]) == (w1, None::<SchemaError>));
    assert(apply_batch_spec(v3, s3) == apply_batch_spec(w1, s4));

    let w2 = with_index_added(w1, vital_scores_date_index_def());
    assert(w1.indexes[0] == health_metrics_date_index_def());
    assert(!index_present(w1.indexes, IndexName::VitalScoresDate));
    assert(table_present(w1.tables, TableName::VitalScores));
    assert(apply_statement_spec(w1, s[4]) == (w2, None::<SchemaError>));
    assert(apply_batch_spec(w1, s4) == apply_batch_spec(w2, s5));

    let w3 = with_index_added(w2, trends_index_def());
    assert(w2.indexes[0] == health_metrics_date_index_def());
    assert(w2.indexes[1] == vital_scores_date_index_def());
    assert(!index_present(w2.indexes, IndexName::TrendsMetricTimeframe));
    assert(table_present(w2.tables, TableName::Trends));
    assert(apply_statement_spec(w2, s[5]) == (w3, None::<SchemaError>));
    assert(s5.len() == 1);
    assert(s5.drop_first() =~= Seq::<crate::migration::StatementView>::empty());
    assert(apply_batch_spec(w3, s5.drop_first()) == (w3, None::<SchemaError>));
    assert(apply_batch_spec(w2, s5) == (w3, None::<SchemaError>));

    assert(apply_batch_spec(v0, s) == (w3, None::<SchemaError>));
    let recorded = with_version_recorded(w3, 1u64);
    assert(initial_migration().version == 1u64);
    assert(initial_migration().statements == s);
    assert(ms.drop_first() =~= Seq::<MigrationView>::empty());
    assert(apply_migrations_spec(recorded, ms.drop_first()) == (recorded, None::<SchemaError>));
    assert(apply_migrations_spec(v0, ms) == (recorded, None::<SchemaError>));

    assert(recorded.tables =~= seq![health_metrics_def(), vital_scores_def(), trends_def()]);
    assert(recorded.indexes =~= seq![
        health_metrics_date_index_def(),
        vital_scores_date_index_def(),
        trends_index_def(),
    ]);
    assert(recorded.applied =~= seq![1u64]);
    assert(recorded.health_metrics =~= Seq::<HealthMetricRow>::empty());
    assert(recorded.vital_scores =~= Seq::<VitalScoreRow>::empty());
    assert(recorded.trends =~= Seq::<TrendRow>::empty());
}

} // verus!
