//! Versioned schema migrations: the statements a migration batch is made of,
//! the errors a batch can fail with, and the store's initial migration, which
//! creates the three tables and three indexes.
//!
//! Each `CREATE TABLE` of the initial migration carries an existence guard
//! (`IF NOT EXISTS`), so re-running it against an existing table is a no-op.
//! The `CREATE INDEX` statements carry no such guard: re-running them against
//! an existing index fails. The definitions below record both facts exactly.

use vstd::prelude::*;

use crate::schema::IndexDef;
use crate::schema::IndexDefView;
use crate::schema::IndexName;
use crate::schema::TableDef;
use crate::schema::TableDefView;
use crate::schema::TableName;
use crate::schema::health_metrics_date_index;
use crate::schema::health_metrics_date_index_def;
use crate::schema::health_metrics_def;
use crate::schema::health_metrics_table;
use crate::schema::trends_def;
use crate::schema::trends_index;
use crate::schema::trends_index_def;
use crate::schema::trends_table;
use crate::schema::vital_scores_date_index;
use crate::schema::vital_scores_date_index_def;
use crate::schema::vital_scores_def;
use crate::schema::vital_scores_table;

verus! {

/// One DDL statement of a migration batch, as the mathematical value the
/// contracts speak of.
#[verifier::ext_equal]
pub ghost enum StatementView {
    CreateTable { if_not_exists: bool, def: TableDefView },
    CreateIndex { if_not_exists: bool, def: IndexDefView },
}

/// One DDL statement of a migration batch. `if_not_exists` records whether
/// the statement carries an existence guard.
#[derive(Clone, Debug, PartialEq, Eq)]
pub enum Statement {
    CreateTable { if_not_exists: bool, def: TableDef },
    CreateIndex { if_not_exists: bool, def: IndexDef },
}

impl View for Statement {
    type V = StatementView;

    open spec fn view(&self) -> StatementView {
        match self {
            Statement::CreateTable { if_not_exists, def } => StatementView::CreateTable {
                if_not_exists: *if_not_exists,
                def: def@,
            },
            Statement::CreateIndex { if_not_exists, def } => StatementView::CreateIndex {
                if_not_exists: *if_not_exists,
                def: def@,
            },
        }
    }
}

/// Why a migration batch failed: an unguarded `CREATE` hit an object that
/// already exists, or an index named a table that does not.
#[derive(Clone, Copy, Debug, PartialEq, Eq, Structural)]
pub enum SchemaError {
    TableAlreadyExists(TableName),
    IndexAlreadyExists(IndexName),
    MissingTable(TableName),
}

/// A migration as the mathematical value the contracts speak of.
#[verifier::ext_equal]
pub ghost struct MigrationView {
    pub version: u64,
    pub description: Seq<char>,
    pub statements: Seq<StatementView>,
}

/// One versioned migration step: applied at most once per store, in
/// ascending version order.
#[derive(Clone, Debug, PartialEq, Eq)]
pub struct Migration {
    pub version: u64,
    pub description: String,
    pub statements: Vec<Statement>,
}

impl View for Migration {
    type V = MigrationView;

    open spec fn view(&self) -> MigrationView {
        MigrationView {
            version: self.version,
            description: self.description@,
            statements: statement_views(self.statements@),
        }
    }
}

/// The views of a sequence of statements, in order.
pub open spec fn statement_views(statements: Seq<Statement>) -> Seq<StatementView> {
    statements.map_values(|s: Statement| s@)
}

/// The views of a sequence of migrations, in order.
pub open spec fn migration_views(migrations: Seq<Migration>) -> Seq<MigrationView> {
    migrations.map_values(|m: Migration| m@)
}

/// The batch of the initial migration: the three guarded `CREATE TABLE`
/// statements followed by the three unguarded `CREATE INDEX` statements.
pub open spec fn initial_statements() -> Seq<StatementView> {
    seq![
        StatementView::CreateTable { if_not_exists: true, def: health_metrics_def() },
        StatementView::CreateTable { if_not_exists: true, def: vital_scores_def() },
        StatementView::CreateTable { if_not_exists: true, def: trends_def() },
        StatementView::CreateIndex { if_not_exists: false, def: health_metrics_date_index_def() },
        StatementView::CreateIndex { if_not_exists: false, def: vital_scores_date_index_def() },
        StatementView::CreateIndex { if_not_exists: false, def: trends_index_def() },
    ]
}

/// The initial migration: version 1, "create initial tables".
pub open spec fn initial_migration() -> MigrationView {
    MigrationView {
        version: 1,
        description: "create initial tables"@,
        statements: initial_statements(),
    }
}

/// The full ordered migration set of the store.
pub open spec fn all_migrations() -> Seq<MigrationView> {
    seq![initial_migration()]
}

/// Versions strictly ascend along the migration list.
pub open spec fn versions_ascending(migrations: Seq<MigrationView>) -> bool {
    forall|i: int, j: int|
        0 <= i < j < migrations.len() ==> migrations[i].version < migrations[j].version
}

/// Builds the raw statement batch of the initial migration.
pub fn initial_statement_batch() -> (batch: Vec<Statement>)
    ensures
        statement_views(batch@) =~= initial_statements(),
{
    let mut batch: Vec<Statement> = Vec::new();
    batch.push(Statement::CreateTable { if_not_exists: true, def: health_metrics_table() });
    batch.push(Statement::CreateTable { if_not_exists: true, def: vital_scores_table() });
    batch.push(Statement::CreateTable { if_not_exists: true, def: trends_table() });
    batch.push(Statement::CreateIndex { if_not_exists: false, def: health_metrics_date_index() });
    batch.push(Statement::CreateIndex { if_not_exists: false, def: vital_scores_date_index() });
    batch.push(Statement::CreateIndex { if_not_exists: false, def: trends_index() });
    batch
}

/// Builds the store's ordered migration set: today, the single version-1
/// step that creates the initial tables.
pub fn migrations() -> (migrations: Vec<Migration>)
    ensures
        migration_views(migrations@) =~= all_migrations(),
        versions_ascending(migration_views(migrations@)),
{
    let description = make_description();
    let mut migrations: Vec<Migration> = Vec::new();
    migrations.push(Migration { version: 1, description, statements: initial_statement_batch() });
    proof {
        assert(migration_views(migrations@)[0] =~= initial_migration());
    }
    migrations
}

fn make_description() -> (description: String)
    ensures
        description@ == "create initial tables"@,
{
    let description = "create initial tables".to_string();
    description
}

} // verus!
