//! A local, file-backed health store modelled as verified data: the schema of
//! its three tables (`health_metrics`, `vital_scores`, `trends`) and three
//! indexes, the versioned migration steps that create them, and the row-level
//! uniqueness and NOT NULL constraints that the store upholds.

pub mod laws;
pub mod migration;
pub mod rows;
pub mod schema;
pub mod store;
