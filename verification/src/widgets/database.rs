//! One database of the cluster.

use vstd::prelude::*;
use crate::widgets::database_table::{DatabaseTable, DatabaseTableView};

verus! {

/// A database of the server, with the tables listed for it so far.
pub struct Database {
    pub name: String,
    /// Whether the active session is on this database.
    pub is_connected: bool,
    pub tables: Vec<DatabaseTable>,
}

/// What a [`Database`] holds.
pub struct DatabaseView {
    pub name: Seq<char>,
    pub is_connected: bool,
    pub tables: Seq<DatabaseTableView>,
}

impl DeepView for Database {
    type V = DatabaseView;

    open spec fn deep_view(&self) -> DatabaseView {
        DatabaseView {
            name: self.name@,
            is_connected: self.is_connected,
            tables: self.tables.deep_view(),
        }
    }
}

impl View for Database {
    type V = DatabaseView;

    open spec fn view(&self) -> DatabaseView {
        self.deep_view()
    }
}

impl Database {
    /// A database that is not connected.
    pub fn new(name: String, tables: Vec<DatabaseTable>) -> (database: Database)
        ensures
            database@ == (DatabaseView {
                name: name@,
                is_connected: false,
                tables: tables.deep_view(),
            }),
    {
        Database { name, is_connected: false, tables }
    }
}

} // verus!
