//! One table of a database: its name, its columns, and a sample of its rows.

use vstd::prelude::*;

verus! {

/// A table as listed under its database.
pub struct DatabaseTable {
    pub name: String,
    pub columns: Vec<String>,
    /// Sample rows, each rendered as text.
    pub rows: Vec<String>,
}

/// What a [`DatabaseTable`] holds.
pub struct DatabaseTableView {
    pub name: Seq<char>,
    pub columns: Seq<Seq<char>>,
    pub rows: Seq<Seq<char>>,
}

impl DeepView for DatabaseTable {
    type V = DatabaseTableView;

    open spec fn deep_view(&self) -> DatabaseTableView {
        DatabaseTableView {
            name: self.name@,
            columns: self.columns.deep_view(),
            rows: self.rows.deep_view(),
        }
    }
}

impl View for DatabaseTable {
    type V = DatabaseTableView;

    open spec fn view(&self) -> DatabaseTableView {
        self.deep_view()
    }
}

impl DatabaseTable {
    /// A table with the given columns and no rows fetched yet.
    pub fn new(name: String, columns: Vec<String>) -> (table: DatabaseTable)
        ensures
            table@ == (DatabaseTableView {
                name: name@,
                columns: columns.deep_view(),
                rows: Seq::<Seq<char>>::empty(),
            }),
    {
        let table = DatabaseTable { name, columns, rows: Vec::new() };
        assert(table.rows.deep_view() =~= Seq::<Seq<char>>::empty());
        table
    }

    /// Replaces the column names.
    pub fn set_columns(&mut self, columns: Vec<String>)
        ensures
            final(self)@ == (DatabaseTableView { columns: columns.deep_view(), ..old(self)@ }),
    {
        self.columns = columns;
    }

    /// Replaces the sample rows.
    pub fn set_data(&mut self, rows: Vec<String>)
        ensures
            final(self)@ == (DatabaseTableView { rows: rows.deep_view(), ..old(self)@ }),
    {
        self.rows = rows;
    }
}

} // verus!
