//! The browsable tree: a cluster of databases, each with its tables.

pub mod database;
pub mod database_cluster;

pub mod database_table;
