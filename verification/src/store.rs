//! The Local Health Store: a model of the single file-backed relational
//! store the application keeps its data in. The store holds the tables and
//! indexes its migrations have created, the record of which migration
//! versions have been applied, and the rows of the three tables.
//!
//! The meaning of every operation is fixed by spec functions over
//! [`StoreView`]: one small step per DDL statement, a fold over a statement
//! batch that stops at the first failure, and a fold over an ordered
//! migration list that skips every version already recorded and records each
//! newly applied one.

use vstd::prelude::*;

use crate::migration::Migration;
use crate::migration::SchemaError;
use crate::migration::Statement;
use crate::migration::StatementView;
use crate::migration::MigrationView;
use crate::migration::migration_views;
use crate::migration::statement_views;
use crate::migration::versions_ascending;
use crate::rows::ConstraintViolation;
use crate::rows::Date;
use crate::rows::HealthMetricInput;
use crate::rows::HealthMetricRow;
use crate::rows::Timestamp;
use crate::rows::TrendInput;
use crate::rows::TrendRow;
use crate::rows::VitalScoreInput;
use crate::rows::VitalScoreRow;
use crate::schema::ColumnName;
use crate::schema::IndexDef;
use crate::schema::IndexDefView;
use crate::schema::IndexName;
use crate::schema::TableDef;
use crate::schema::TableDefView;
use crate::schema::TableName;

verus! {

/// The store as the mathematical value the contracts speak of: its schema
/// objects, its migration bookkeeping, and its rows.
#[verifier::ext_equal]
pub ghost struct StoreView {
    pub tables: Seq<TableDefView>,
    pub indexes: Seq<IndexDefView>,
    pub applied: Seq<u64>,
    pub health_metrics: Seq<HealthMetricRow>,
    pub vital_scores: Seq<VitalScoreRow>,
    pub trends: Seq<TrendRow>,
}

/// A fresh store: no schema objects, no recorded versions, no rows.
pub open spec fn empty_store() -> StoreView {
    StoreView {
        tables: Seq::empty(),
        indexes: Seq::empty(),
        applied: Seq::empty(),
        health_metrics: Seq::empty(),
        vital_scores: Seq::empty(),
        trends: Seq::empty(),
    }
}

/// Some table of this name exists.
pub open spec fn table_present(tables: Seq<TableDefView>, name: TableName) -> bool {
    exists|i: int| 0 <= i < tables.len() && tables[i].name == name
}

/// Some index of this name exists.
pub open spec fn index_present(indexes: Seq<IndexDefView>, name: IndexName) -> bool {
    exists|i: int| 0 <= i < indexes.len() && indexes[i].name == name
}

/// Some `health_metrics` row carries this date.
pub open spec fn has_health_date(rows: Seq<HealthMetricRow>, date: Date) -> bool {
    exists|i: int| 0 <= i < rows.len() && rows[i].date == date
}

/// Some `vital_scores` row carries this date.
pub open spec fn has_vital_date(rows: Seq<VitalScoreRow>, date: Date) -> bool {
    exists|i: int| 0 <= i < rows.len() && rows[i].date == date
}

/// Some `trends` row carries this `(metric, timeframe)` pair.
pub open spec fn has_trend_key(rows: Seq<TrendRow>, metric: Seq<char>, timeframe: Seq<char>) -> bool {
    exists|i: int| 0 <= i < rows.len() && rows[i].metric@ == metric && rows[i].timeframe@ == timeframe
}

/// The store's invariant: schema object names, recorded versions and row
/// keys are all free of duplicates.
pub open spec fn store_inv(v: StoreView) -> bool {
    &&& forall|i: int, j: int|
        0 <= i < j < v.tables.len() ==> v.tables[i].name != v.tables[j].name
    &&& forall|i: int, j: int|
        0 <= i < j < v.indexes.len() ==> v.indexes[i].name != v.indexes[j].name
    &&& forall|i: int, j: int| 0 <= i < j < v.applied.len() ==> v.applied[i] != v.applied[j]
    &&& forall|i: int, j: int|
        0 <= i < j < v.health_metrics.len() ==> v.health_metrics[i].date != v.health_metrics[j].date
    &&& forall|i: int, j: int|
        0 <= i < j < v.vital_scores.len() ==> v.vital_scores[i].date != v.vital_scores[j].date
    &&& forall|i: int, j: int|
        0 <= i < j < v.trends.len() ==> !(v.trends[i].metric@ == v.trends[j].metric@
            && v.trends[i].timeframe@ == v.trends[j].timeframe@)
}

/// The store with one more table.
pub open spec fn with_table_added(v: StoreView, def: TableDefView) -> StoreView {
    StoreView { tables: v.tables.push(def), ..v }
}

/// The store with one more index.
pub open spec fn with_index_added(v: StoreView, def: IndexDefView) -> StoreView {
    StoreView { indexes: v.indexes.push(def), ..v }
}

/// The store with one more version recorded as applied.
pub open spec fn with_version_recorded(v: StoreView, version: u64) -> StoreView {
    StoreView { applied: v.applied.push(version), ..v }
}

/// The store with one more `health_metrics` row.
pub open spec fn with_health_row(v: StoreView, row: HealthMetricRow) -> StoreView {
    StoreView { health_metrics: v.health_metrics.push(row), ..v }
}

/// The store with one more `vital_scores` row.
pub open spec fn with_vital_row(v: StoreView, row: VitalScoreRow) -> StoreView {
    StoreView { vital_scores: v.vital_scores.push(row), ..v }
}

/// The store with one more `trends` row.
pub open spec fn with_trend_row(v: StoreView, row: TrendRow) -> StoreView {
    StoreView { trends: v.trends.push(row), ..v }
}

/// An optional failure, as the `Result` an operation returns.
pub open spec fn as_result(error: Option<SchemaError>) -> Result<(), SchemaError> {
    match error {
        None => Ok(()),
        Some(e) => Err(e),
    }
}

/// One DDL statement against the store. A guarded `CREATE` of an object
/// that already exists (by name) is a no-op; an unguarded one fails; an
/// index can only be created on a table that exists. Rows are never touched.
pub open spec fn apply_statement_spec(v: StoreView, statement: StatementView) -> (
    StoreView,
    Option<SchemaError>,
) {
    match statement {
        StatementView::CreateTable { if_not_exists, def } => {
            if table_present(v.tables, def.name) {
                if if_not_exists {
                    (v, None)
                } else {
                    (v, Some(SchemaError::TableAlreadyExists(def.name)))
                }
            } else {
                (with_table_added(v, def), None)
            }
        },
        StatementView::CreateIndex { if_not_exists, def } => {
            if index_present(v.indexes, def.name) {
                if if_not_exists {
                    (v, None)
                } else {
                    (v, Some(SchemaError::IndexAlreadyExists(def.name)))
                }
            } else if !table_present(v.tables, def.table) {
                (v, Some(SchemaError::MissingTable(def.table)))
            } else {
                (with_index_added(v, def), None)
            }
        },
    }
}

/// A statement batch, applied in order, stopping at the first failure and
/// keeping the effect of every statement before it.
pub open spec fn apply_batch_spec(v: StoreView, statements: Seq<StatementView>) -> (
    StoreView,
    Option<SchemaError>,
)
    decreases statements.len(),
{
    if statements.len() == 0 {
        (v, None)
    } else {
        let step = apply_statement_spec(v, statements[0]);
        if step.1 is Some {
            step
        } else {
            apply_batch_spec(step.0, statements.drop_first())
        }
    }
}

/// An ordered migration list: every step whose version is already recorded
/// is skipped; every other step's batch is applied and, on success, its
/// version recorded. A failing batch stops the run with its error.
pub open spec fn apply_migrations_spec(v: StoreView, migrations: Seq<MigrationView>) -> (
    StoreView,
    Option<SchemaError>,
)
    decreases migrations.len(),
{
    if migrations.len() == 0 {
        (v, None)
    } else {
        let m = migrations[0];
        if v.applied.contains(m.version) {
            apply_migrations_spec(v, migrations.drop_first())
        } else {
            let batch = apply_batch_spec(v, m.statements);
            if batch.1 is Some {
                batch
            } else {
                apply_migrations_spec(
                    with_version_recorded(batch.0, m.version),
                    migrations.drop_first(),
                )
            }
        }
    }
}

/// A statement batch touches only the schema objects: the version record
/// and the rows come through unchanged.
pub proof fn lemma_batch_preserves_data(v: StoreView, statements: Seq<StatementView>)
    ensures
        apply_batch_spec(v, statements).0.applied == v.applied,
        apply_batch_spec(v, statements).0.health_metrics == v.health_metrics,
        apply_batch_spec(v, statements).0.vital_scores == v.vital_scores,
        apply_batch_spec(v, statements).0.trends == v.trends,
    decreases statements.len(),
{
    if statements.len() > 0 {
        let step = apply_statement_spec(v, statements[0]);
        if step.1 is None {
            lemma_batch_preserves_data(step.0, statements.drop_first());
        }
    }
}

/// The Local Health Store.
pub struct Store {
    tables: Vec<TableDef>,
    indexes: Vec<IndexDef>,
    applied: Vec<u64>,
    health_metrics: Vec<HealthMetricRow>,
    vital_scores: Vec<VitalScoreRow>,
    trends: Vec<TrendRow>,
}

impl View for Store {
    type V = StoreView;

    closed spec fn view(&self) -> StoreView {
        StoreView {
            tables: self.tables@.map_values(|t: TableDef| t@),
            indexes: self.indexes@.map_values(|ix: IndexDef| ix@),
            applied: self.applied@,
            health_metrics: self.health_metrics@,
            vital_scores: self.vital_scores@,
            trends: self.trends@,
        }
    }
}

impl Store {
    /// Opens a fresh, empty store.
    pub fn new() -> (store: Store)
        ensures
            store@ == empty_store(),
            store_inv(store@),
    {
        let store = Store {
            tables: Vec::new(),
            indexes: Vec::new(),
            applied: Vec::new(),
            health_metrics: Vec::new(),
            vital_scores: Vec::new(),
            trends: Vec::new(),
        };
        proof {
            assert(store@ =~= empty_store());
        }
        store
    }

    /// Whether a table of this name exists.
    pub fn has_table(&self, name: TableName) -> (present: bool)
        ensures
            present == table_present(self@.tables, name),
    {
        let mut i: usize = 0;
        while i < self.tables.len()
            invariant
                i <= self.tables.len(),
                forall|k: int| 0 <= k < i ==> self@.tables[k].name != name,
            decreases self.tables.len() - i,
        {
            if self.tables[i].name == name {
                proof {
                    assert(self@.tables[i as int] == self.tables@[i as int]@);
                }
                return true;
            }
            i = i + 1;
        }
        false
    }

    /// Whether an index of this name exists.
    pub fn has_index(&self, name: IndexName) -> (present: bool)
        ensures
            present == index_present(self@.indexes, name),
    {
        let mut i: usize = 0;
        while i < self.indexes.len()
            invariant
                i <= self.indexes.len(),
                forall|k: int| 0 <= k < i ==> self@.indexes[k].name != name,
            decreases self.indexes.len() - i,
        {
            if self.indexes[i].name == name {
                proof {
                    assert(self@.indexes[i as int] == self.indexes@[i as int]@);
                }
                return true;
            }
            i = i + 1;
        }
        false
    }

    /// Whether this migration version is recorded as applied.
    pub fn version_applied(&self, version: u64) -> (recorded: bool)
        ensures
            recorded == self@.applied.contains(version),
    {
        let mut i: usize = 0;
        while i < self.applied.len()
            invariant
                i <= self.applied.len(),
                forall|k: int| 0 <= k < i ==> self@.applied[k] != version,
            decreases self.applied.len() - i,
        {
            if self.applied[i] == version {
                return true;
            }
            i = i + 1;
        }
        false
    }

    /// Applies one DDL statement, per [`apply_statement_spec`].
    pub fn apply_statement(&mut self, statement: &Statement) -> (result: Result<(), SchemaError>)
        requires
            store_inv(old(self)@),
        ensures
            final(self)@ == apply_statement_spec(old(self)@, statement@).0,
            result == as_result(apply_statement_spec(old(self)@, statement@).1),
            store_inv(final(self)@),
    {
        match statement {
            Statement::CreateTable { if_not_exists, def } => {
                if self.has_table(def.name) {
                    if *if_not_exists {
                        Ok(())
                    } else {
                        Err(SchemaError::TableAlreadyExists(def.name))
                    }
                } else {
                    let copy = def.duplicate();
                    self.tables.push(copy);
                    proof {
                        assert(self@.tables =~= old(self)@.tables.push(def@));
                        assert(self@ =~= with_table_added(old(self)@, def@));
                    }
                    Ok(())
                }
            },
            Statement::CreateIndex { if_not_exists, def } => {
                if self.has_index(def.name) {
                    if *if_not_exists {
                        Ok(())
                    } else {
                        Err(SchemaError::IndexAlreadyExists(def.name))
                    }
                } else if !self.has_table(def.table) {
                    Err(SchemaError::MissingTable(def.table))
                } else {
                    let copy = def.duplicate();
                    self.indexes.push(copy);
                    proof {
                        assert(self@.indexes =~= old(self)@.indexes.push(def@));
                        assert(self@ =~= with_index_added(old(self)@, def@));
                    }
                    Ok(())
                }
            },
        }
    }

    /// Applies a statement batch in order, per [`apply_batch_spec`]: it
    /// stops at the first failing statement and keeps every effect before
    /// it.
    pub fn apply_batch(&mut self, statements: &Vec<Statement>) -> (result: Result<
        (),
        SchemaError,
    >)
        requires
            store_inv(old(self)@),
        ensures
            final(self)@ == apply_batch_spec(old(self)@, statement_views(statements@)).0,
            result == as_result(apply_batch_spec(old(self)@, statement_views(statements@)).1),
            store_inv(final(self)@),
    {
        let ghost start = self@;
        let ghost views = statement_views(statements@);
        proof {
            assert(views.skip(0) =~= views);
        }
        let mut i: usize = 0;
        while i < statements.len()
            invariant
                i <= statements.len(),
                store_inv(self@),
                start == old(self)@,
                views == statement_views(statements@),
                views.len() == statements@.len(),
                apply_batch_spec(start, views) == apply_batch_spec(self@, views.skip(i as int)),
            decreases statements.len() - i,
        {
            let ghost before = self@;
            let result = self.apply_statement(&statements[i]);
            proof {
                assert(views[i as int] == statements@[i as int]@);
                assert(views.skip(i as int)[0] == views[i as int]);
                assert(views.skip(i as int).drop_first() =~= views.skip(i as int + 1));
            }
            if let Err(error) = result {
                proof {
                    assert(apply_statement_spec(before, views[i as int]).1 == Some(error));
                    assert(apply_batch_spec(before, views.skip(i as int)) == (
                        self@,
                        Some(error),
                    ));
                }
                return Err(error);
            }
            i = i + 1;
        }
        proof {
            assert(views.skip(statements@.len() as int) =~= Seq::<StatementView>::empty());
        }
        Ok(())
    }

    /// Applies the ordered migration list, per [`apply_migrations_spec`]:
    /// every unapplied version in ascending order, exactly once, each
    /// recorded on success. Safe to run on every startup: recorded versions
    /// are skipped.
    pub fn apply_migrations(&mut self, migrations: &Vec<Migration>) -> (result: Result<
        (),
        SchemaError,
    >)
        requires
            store_inv(old(self)@),
            versions_ascending(migration_views(migrations@)),
        ensures
            final(self)@ == apply_migrations_spec(old(self)@, migration_views(migrations@)).0,
            result == as_result(apply_migrations_spec(old(self)@, migration_views(migrations@)).1),
            store_inv(final(self)@),
    {
        let ghost start = self@;
        let ghost views = migration_views(migrations@);
        proof {
            assert(views.skip(0) =~= views);
        }
        let mut i: usize = 0;
        while i < migrations.len()
            invariant
                i <= migrations.len(),
                store_inv(self@),
                start == old(self)@,
                views == migration_views(migrations@),
                views.len() == migrations@.len(),
                apply_migrations_spec(start, views) == apply_migrations_spec(
                    self@,
                    views.skip(i as int),
                ),
            decreases migrations.len() - i,
        {
            let ghost before = self@;
            let migration = &migrations[i];
            proof {
                assert(views[i as int] == migrations@[i as int]@);
                assert(views.skip(i as int)[0] == views[i as int]);
                assert(views.skip(i as int).drop_first() =~= views.skip(i as int + 1));
            }
            let recorded = self.version_applied(migration.version);
            if !recorded {
                let batch_result = self.apply_batch(&migration.statements);
                match batch_result {
                    Ok(()) => {
                        proof {
                            lemma_batch_preserves_data(
                                before,
                                statement_views(migration.statements@),
                            );
                        }
                        self.applied.push(migration.version);
                        proof {
                            assert(self@ =~= with_version_recorded(
                                apply_batch_spec(before, views[i as int].statements).0,
                                views[i as int].version,
                            ));
                        }
                    },
                    Err(error) => {
                        proof {
                            assert(!before.applied.contains(views[i as int].version));
                            assert(apply_batch_spec(before, views[i as int].statements).1
                                == Some(error));
                            assert(apply_migrations_spec(before, views.skip(i as int)) == (
                                self@,
                                Some(error),
                            ));
                        }
                        return Err(error);
                    },
                }
            }
            i = i + 1;
        }
        proof {
            assert(views.skip(migrations@.len() as int) =~= Seq::<MigrationView>::empty());
        }
        Ok(())
    }

    /// How many tables exist.
    pub fn table_count(&self) -> (n: usize)
        ensures
            n == self@.tables.len(),
    {
        self.tables.len()
    }

    /// How many indexes exist.
    pub fn index_count(&self) -> (n: usize)
        ensures
            n == self@.indexes.len(),
    {
        self.indexes.len()
    }

    /// How many migration versions are recorded as applied.
    pub fn applied_count(&self) -> (n: usize)
        ensures
            n == self@.applied.len(),
    {
        self.applied.len()
    }

    /// How many `health_metrics` rows exist.
    pub fn health_metric_count(&self) -> (n: usize)
        ensures
            n == self@.health_metrics.len(),
    {
        self.health_metrics.len()
    }

    /// How many `vital_scores` rows exist.
    pub fn vital_score_count(&self) -> (n: usize)
        ensures
            n == self@.vital_scores.len(),
    {
        self.vital_scores.len()
    }

    /// How many `trends` rows exist.
    pub fn trend_count(&self) -> (n: usize)
        ensures
            n == self@.trends.len(),
    {
        self.trends.len()
    }

    /// The definition of the table of this name, if it exists.
    pub fn table(&self, name: TableName) -> (found: Option<&TableDef>)
        ensures
            (found is Some) == table_present(self@.tables, name),
            found matches Some(def) ==> self@.tables.contains(def@) && def.name == name,
    {
        let mut i: usize = 0;
        while i < self.tables.len()
            invariant
                i <= self.tables.len(),
                forall|k: int| 0 <= k < i ==> self@.tables[k].name != name,
            decreases self.tables.len() - i,
        {
            if self.tables[i].name == name {
                proof {
                    assert(self@.tables[i as int] == self.tables@[i as int]@);
                }
                return Some(&self.tables[i]);
            }
            i = i + 1;
        }
        None
    }

    /// The definition of the index of this name, if it exists.
    pub fn index(&self, name: IndexName) -> (found: Option<&IndexDef>)
        ensures
            (found is Some) == index_present(self@.indexes, name),
            found matches Some(def) ==> self@.indexes.contains(def@) && def.name == name,
    {
        let mut i: usize = 0;
        while i < self.indexes.len()
            invariant
                i <= self.indexes.len(),
                forall|k: int| 0 <= k < i ==> self@.indexes[k].name != name,
            decreases self.indexes.len() - i,
        {
            if self.indexes[i].name == name {
                proof {
                    assert(self@.indexes[i as int] == self.indexes@[i as int]@);
                }
                return Some(&self.indexes[i]);
            }
            i = i + 1;
        }
        None
    }

    /// The `health_metrics` row at this position, in insertion order.
    pub fn health_metric(&self, index: usize) -> (row: Option<&HealthMetricRow>)
        ensures
            (row is Some) == (index < self@.health_metrics.len()),
            row matches Some(r) ==> *r == self@.health_metrics[index as int],
    {
        if index < self.health_metrics.len() {
            Some(&self.health_metrics[index])
        } else {
            None
        }
    }

    /// The `vital_scores` row at this position, in insertion order.
    pub fn vital_score(&self, index: usize) -> (row: Option<&VitalScoreRow>)
        ensures
            (row is Some) == (index < self@.vital_scores.len()),
            row matches Some(r) ==> *r == self@.vital_scores[index as int],
    {
        if index < self.vital_scores.len() {
            Some(&self.vital_scores[index])
        } else {
            None
        }
    }

    /// The `trends` row at this position, in insertion order.
    pub fn trend(&self, index: usize) -> (row: Option<&TrendRow>)
        ensures
            (row is Some) == (index < self@.trends.len()),
            row matches Some(r) ==> *r == self@.trends[index as int],
    {
        if index < self.trends.len() {
            Some(&self.trends[index])
        } else {
            None
        }
    }

    /// Whether a `health_metrics` row with this date exists.
    pub fn health_date_taken(&self, date: Date) -> (taken: bool)
        ensures
            taken == has_health_date(self@.health_metrics, date),
    {
        let mut i: usize = 0;
        while i < self.health_metrics.len()
            invariant
                i <= self.health_metrics.len(),
                forall|k: int| 0 <= k < i ==> self@.health_metrics[k].date != date,
            decreases self.health_metrics.len() - i,
        {
            if self.health_metrics[i].date == date {
                return true;
            }
            i = i + 1;
        }
        false
    }

    /// Whether a `vital_scores` row with this date exists.
    pub fn vital_date_taken(&self, date: Date) -> (taken: bool)
        ensures
            taken == has_vital_date(self@.vital_scores, date),
    {
        let mut i: usize = 0;
        while i < self.vital_scores.len()
            invariant
                i <= self.vital_scores.len(),
                forall|k: int| 0 <= k < i ==> self@.vital_scores[k].date != date,
            decreases self.vital_scores.len() - i,
        {
            if self.vital_scores[i].date == date {
                return true;
            }
            i = i + 1;
        }
        false
    }

    /// Whether a `trends` row with this `(metric, timeframe)` pair exists.
    pub fn trend_key_taken(&self, metric: &String, timeframe: &String) -> (taken: bool)
        ensures
            taken == has_trend_key(self@.trends, metric@, timeframe@),
    {
        let mut i: usize = 0;
        while i < self.trends.len()
            invariant
                i <= self.trends.len(),
                forall|k: int|
                    0 <= k < i ==> !(self@.trends[k].metric@ == metric@
                        && self@.trends[k].timeframe@ == timeframe@),
            decreases self.trends.len() - i,
        {
            if self.trends[i].metric == *metric && self.trends[i].timeframe == *timeframe {
                return true;
            }
            i = i + 1;
        }
        false
    }

    /// Inserts one day's health metrics. The date is the row's unique key:
    /// a second row with the same date is rejected with a constraint
    /// violation and the store is left unchanged. Every measurement is
    /// optional; the caller's clock value becomes `created_at` and
    /// `updated_at`.
    pub fn insert_health_metric(
        &mut self,
        date: Date,
        metrics: HealthMetricInput,
        now: Timestamp,
    ) -> (result: Result<(), ConstraintViolation>)
        requires
            store_inv(old(self)@),
        ensures
            store_inv(final(self)@),
            has_health_date(old(self)@.health_metrics, date) ==> result == Err::<
                (),
                ConstraintViolation,
            >(
                ConstraintViolation::Unique {
                    table: TableName::HealthMetrics,
                    column: ColumnName::Date,
                },
            ) && final(self)@ == old(self)@,
            !has_health_date(old(self)@.health_metrics, date) ==> result == Ok::<
                (),
                ConstraintViolation,
            >(()) && final(self)@ == with_health_row(
                old(self)@,
                HealthMetricRow { date, metrics, created_at: now, updated_at: now },
            ),
    {
        if self.health_date_taken(date) {
            Err(
                ConstraintViolation::Unique {
                    table: TableName::HealthMetrics,
                    column: ColumnName::Date,
                },
            )
        } else {
            let row = HealthMetricRow { date, metrics, created_at: now, updated_at: now };
            self.health_metrics.push(row);
            proof {
                assert(self@ =~= with_health_row(old(self)@, row));
            }
            Ok(())
        }
    }

    /// Inserts one day's vital score. The composite `score` is required
    /// (NOT NULL): an insert omitting it is rejected. The date is the
    /// row's unique key, as for health metrics. Every other field may be
    /// omitted.
    pub fn insert_vital_score(
        &mut self,
        date: Date,
        values: VitalScoreInput,
        now: Timestamp,
    ) -> (result: Result<(), ConstraintViolation>)
        requires
            store_inv(old(self)@),
        ensures
            store_inv(final(self)@),
            values.score is None ==> result == Err::<(), ConstraintViolation>(
                ConstraintViolation::NotNull {
                    table: TableName::VitalScores,
                    column: ColumnName::Score,
                },
            ) && final(self)@ == old(self)@,
            values.score is Some && has_vital_date(old(self)@.vital_scores, date) ==> result
                == Err::<(), ConstraintViolation>(
                ConstraintViolation::Unique {
                    table: TableName::VitalScores,
                    column: ColumnName::Date,
                },
            ) && final(self)@ == old(self)@,
            values.score is Some && !has_vital_date(old(self)@.vital_scores, date) ==> result
                == Ok::<(), ConstraintViolation>(()) && final(self)@ == with_vital_row(
                old(self)@,
                VitalScoreRow {
                    date,
                    score: values.score.unwrap(),
                    sleep_component: values.sleep_component,
                    recovery_component: values.recovery_component,
                    strain_component: values.strain_component,
                    recommendation: values.recommendation,
                    created_at: now,
                },
            ),
    {
        match values.score {
            None => Err(
                ConstraintViolation::NotNull {
                    table: TableName::VitalScores,
                    column: ColumnName::Score,
                },
            ),
            Some(score) => {
                if self.vital_date_taken(date) {
                    Err(
                        ConstraintViolation::Unique {
                            table: TableName::VitalScores,
                            column: ColumnName::Date,
                        },
                    )
                } else {
                    let row = VitalScoreRow {
                        date,
                        score,
                        sleep_component: values.sleep_component,
                        recovery_component: values.recovery_component,
                        strain_component: values.strain_component,
                        recommendation: values.recommendation,
                        created_at: now,
                    };
                    self.vital_scores.push(row);
                    proof {
                        assert(self@ =~= with_vital_row(old(self)@, self@.vital_scores.last()));
                    }
                    Ok(())
                }
            },
        }
    }

    /// Inserts a detected trend. The `(metric, timeframe)` pair is the
    /// row's unique key: a second row with the same pair is rejected with a
    /// constraint violation and the store is left unchanged; a row
    /// differing in either field is accepted.
    pub fn insert_trend(&mut self, trend: TrendInput, now: Timestamp) -> (result: Result<
        (),
        ConstraintViolation,
    >)
        requires
            store_inv(old(self)@),
        ensures
            store_inv(final(self)@),
            has_trend_key(old(self)@.trends, trend.metric@, trend.timeframe@) ==> result == Err::<
                (),
                ConstraintViolation,
            >(
                ConstraintViolation::UniquePair {
                    table: TableName::Trends,
                    first: ColumnName::Metric,
                    second: ColumnName::Timeframe,
                },
            ) && final(self)@ == old(self)@,
            !has_trend_key(old(self)@.trends, trend.metric@, trend.timeframe@) ==> result == Ok::<
                (),
                ConstraintViolation,
            >(()) && final(self)@ == with_trend_row(
                old(self)@,
                TrendRow {
                    metric: trend.metric,
                    timeframe: trend.timeframe,
                    baseline: trend.baseline,
                    current_avg: trend.current_avg,
                    percent_change: trend.percent_change,
                    direction: trend.direction,
                    detected_at: now,
                },
            ),
    {
        if self.trend_key_taken(&trend.metric, &trend.timeframe) {
            Err(
                ConstraintViolation::UniquePair {
                    table: TableName::Trends,
                    first: ColumnName::Metric,
                    second: ColumnName::Timeframe,
                },
            )
        } else {
            let row = TrendRow {
                metric: trend.metric,
                timeframe: trend.timeframe,
                baseline: trend.baseline,
                current_avg: trend.current_avg,
                percent_change: trend.percent_change,
                direction: trend.direction,
                detected_at: now,
            };
            self.trends.push(row);
            proof {
                assert(self@ =~= with_trend_row(old(self)@, self@.trends.last()));
            }
            Ok(())
        }
    }
}

} // verus!


