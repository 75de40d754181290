//! The cluster: the ordered databases of the server and the focus within
//! the explorer tree.
//!
//! The tree lists every database followed by its tables. The focus is one
//! row of that tree: a database, or a table under a database. At most one
//! database is connected at any time.

use vstd::prelude::*;
use vstd::arithmetic::div_mod::lemma_fundamental_div_mod_converse;
use crate::widgets::database::{Database, DatabaseView};
use crate::widgets::database_table::{DatabaseTable, DatabaseTableView};

verus! {

/// What a [`DatabaseCluster`] holds: the databases in order, the index of
/// the focused database, and the index of the focused table under it when a
/// table row has the focus.
pub struct ClusterView {
    pub databases: Seq<DatabaseView>,
    pub database: int,
    pub table: Option<int>,
}

impl ClusterView {
    /// The focus names a row that exists. An empty cluster keeps it at zero.
    pub open spec fn focus_valid(self) -> bool {
        if self.databases.len() == 0 {
            self.database == 0 && self.table is None
        } else {
            &&& 0 <= self.database < self.databases.len()
            &&& self.table matches Some(t) ==> 0 <= t < self.databases[self.database].tables.len()
        }
    }

    /// No two databases are connected.
    pub open spec fn at_most_one_connected(self) -> bool {
        forall|i: int, j: int|
            0 <= i < self.databases.len() && 0 <= j < self.databases.len()
                && (#[trigger] self.databases[i]).is_connected
                && (#[trigger] self.databases[j]).is_connected ==> i == j
    }

    /// The invariant of a cluster.
    pub open spec fn wf(self) -> bool {
        self.focus_valid() && self.at_most_one_connected()
    }

    /// Number of rows of the tree above database `d`.
    pub open spec fn rows_before(self, d: int) -> int
        decreases d,
    {
        if d <= 0 {
            0
        } else {
            self.rows_before(d - 1) + 1 + self.databases[d - 1].tables.len()
        }
    }

    /// Number of rows of the tree.
    pub open spec fn row_count(self) -> int {
        self.rows_before(self.databases.len() as int)
    }

    /// Position of the focused row, counted from the top of the tree.
    pub open spec fn row_index(self) -> int {
        self.rows_before(self.database) + match self.table {
            None => 0,
            Some(t) => 1 + t,
        }
    }

    /// The focus one row further down, back at the top after the last row.
    pub open spec fn moved_down(self) -> ClusterView {
        if self.databases.len() == 0 {
            self
        } else {
            let below = match self.table {
                None => 0,
                Some(t) => t + 1,
            };
            if below < self.databases[self.database].tables.len() {
                ClusterView { table: Some(below), ..self }
            } else if self.database + 1 < self.databases.len() {
                ClusterView { database: self.database + 1, table: None, ..self }
            } else {
                ClusterView { database: 0, table: None, ..self }
            }
        }
    }

    /// The focus one row further up, at the last row after the top.
    pub open spec fn moved_up(self) -> ClusterView {
        if self.databases.len() == 0 {
            self
        } else {
            match self.table {
                Some(t) => ClusterView { table: if t == 0 { None } else { Some(t - 1) }, ..self },
                None => {
                    let above = if self.database == 0 {
                        self.databases.len() - 1
                    } else {
                        self.database - 1
                    };
                    let tables = self.databases[above].tables.len();
                    ClusterView {
                        database: above,
                        table: if tables == 0 { None } else { Some(tables - 1) },
                        ..self
                    }
                },
            }
        }
    }

    /// The focused database's flag flipped and every other flag cleared.
    pub open spec fn toggled(self) -> ClusterView {
        ClusterView {
            databases: Seq::new(
                self.databases.len(),
                |i: int|
                    DatabaseView {
                        is_connected: i == self.database && !self.databases[i].is_connected,
                        ..self.databases[i]
                    },
            ),
            ..self
        }
    }

    /// Index of the first connected database at or after `from`, or the
    /// number of databases when there is none.
    pub open spec fn connected_from(self, from: int) -> int
        decreases self.databases.len() - from,
    {
        if from < 0 || from >= self.databases.len() {
            self.databases.len() as int
        } else if self.databases[from].is_connected {
            from
        } else {
            self.connected_from(from + 1)
        }
    }

    /// Name of the connected database, if one is connected.
    pub open spec fn connected_name(self) -> Option<Seq<char>> {
        let i = self.connected_from(0);
        if i < self.databases.len() {
            Some(self.databases[i].name)
        } else {
            None
        }
    }

    /// Index of the first database at or after `from` that is called `name`,
    /// or the number of databases when there is none.
    pub open spec fn named_from(self, name: Seq<char>, from: int) -> int
        decreases self.databases.len() - from,
    {
        if from < 0 || from >= self.databases.len() {
            self.databases.len() as int
        } else if self.databases[from].name == name {
            from
        } else {
            self.named_from(name, from + 1)
        }
    }

    /// The table list of the first database called `name` replaced. Where
    /// the focus was on a table of that database it moves to the database
    /// itself. Without such a database nothing changes.
    pub open spec fn with_tables(self, name: Seq<char>, tables: Seq<DatabaseTableView>) -> ClusterView {
        let i = self.named_from(name, 0);
        if i < self.databases.len() {
            ClusterView {
                databases: self.databases.update(i, DatabaseView { tables, ..self.databases[i] }),
                database: self.database,
                table: if self.database == i { None } else { self.table },
            }
        } else {
            self
        }
    }

    /// The table that has the focus, if the focused row is a table.
    pub open spec fn focused_table(self) -> Option<DatabaseTableView> {
        match self.table {
            Some(t) => Some(self.databases[self.database].tables[t]),
            None => None,
        }
    }

    /// The focused table replaced by `table`. Without a focused table
    /// nothing changes.
    pub open spec fn with_focused_table(self, table: DatabaseTableView) -> ClusterView {
        match self.table {
            Some(t) => {
                let database = self.databases[self.database];
                ClusterView {
                    databases: self.databases.update(
                        self.database,
                        DatabaseView { tables: database.tables.update(t, table), ..database },
                    ),
                    ..self
                }
            },
            None => self,
        }
    }

    /// The focused table with its columns replaced.
    pub open spec fn with_focused_columns(self, columns: Seq<Seq<char>>) -> ClusterView {
        match self.focused_table() {
            Some(table) => self.with_focused_table(DatabaseTableView { columns, ..table }),
            None => self,
        }
    }

    /// The focused table with its rows replaced.
    pub open spec fn with_focused_rows(self, rows: Seq<Seq<char>>) -> ClusterView {
        match self.focused_table() {
            Some(table) => self.with_focused_table(DatabaseTableView { rows, ..table }),
            None => self,
        }
    }
}

/// The databases of a server and the focus within the explorer tree.
pub struct DatabaseCluster {
    databases: Vec<Database>,
    database: usize,
    table: Option<usize>,
}

impl View for DatabaseCluster {
    type V = ClusterView;

    closed spec fn view(&self) -> ClusterView {
        ClusterView {
            databases: self.databases.deep_view(),
            database: self.database as int,
            table: match self.table {
                Some(t) => Some(t as int),
                None => None,
            },
        }
    }
}

impl DatabaseCluster {
    /// A cluster of the given databases with the focus on the first one.
    pub fn new(databases: Vec<Database>) -> (cluster: DatabaseCluster)
        requires
            (ClusterView { databases: databases.deep_view(), database: 0, table: None })
                .at_most_one_connected(),
        ensures
            cluster@ == (ClusterView { databases: databases.deep_view(), database: 0, table: None }),
            cluster@.wf(),
    {
        DatabaseCluster { databases, database: 0, table: None }
    }

    /// The databases in order.
    pub fn databases(&self) -> (databases: &Vec<Database>)
        ensures
            databases.deep_view() == self@.databases,
    {
        &self.databases
    }

    /// Index of the focused database, and of the focused table under it when
    /// a table has the focus.
    pub fn focus(&self) -> (focus: (usize, Option<usize>))
        ensures
            focus.0 == self@.database,
            match focus.1 {
                Some(t) => self@.table == Some(t as int),
                None => self@.table is None,
            },
    {
        (self.database, self.table)
    }

    /// Moves the focus one row down the tree, from the last row to the first.
    pub fn next(&mut self)
        requires
            old(self)@.wf(),
        ensures
            final(self)@ == old(self)@.moved_down(),
            final(self)@.wf(),
    {
        let n = self.databases.len();
        if n == 0 {
            return ;
        }
        let tables = self.databases[self.database].tables.len();
        let below: usize = match self.table {
            None => 0,
            Some(t) => t + 1,
        };
        if below < tables {
            self.table = Some(below);
        } else if self.database + 1 < n {
            self.database = self.database + 1;
            self.table = None;
        } else {
            self.database = 0;
            self.table = None;
        }
    }

    /// Moves the focus one row up the tree, from the first row to the last.
    pub fn prev(&mut self)
        requires
            old(self)@.wf(),
        ensures
            final(self)@ == old(self)@.moved_up(),
            final(self)@.wf(),
    {
        let n = self.databases.len();
        if n == 0 {
            return ;
        }
        match self.table {
            Some(t) => {
                if t == 0 {
                    self.table = None;
                } else {
                    self.table = Some(t - 1);
                }
            },
            None => {
                let above: usize = if self.database == 0 {
                    n - 1
                } else {
                    self.database - 1
                };
                let tables = self.databases[above].tables.len();
                self.database = above;
                if tables == 0 {
                    self.table = None;
                } else {
                    self.table = Some(tables - 1);
                }
            },
        }
    }

    /// Flips the connected flag of the focused database and clears the flag
    /// of every other database.
    pub fn toggle_focused_database(&mut self)
        requires
            old(self)@.wf(),
        ensures
            final(self)@ == old(self)@.toggled(),
            final(self)@.wf(),
    {
        let n = self.databases.len();
        if n == 0 {
            assert(self@.databases =~= old(self)@.toggled().databases);
            return ;
        }
        let d = self.database;
        let was_connected = self.databases[d].is_connected;
        let mut k: usize = 0;
        while k < n
            invariant
                k <= n,
                n == self.databases.len(),
                d < n,
                self.database == d,
                self.table == old(self).table,
                old(self)@.wf(),
                old(self).databases.len() == n,
                forall|i: int| 0 <= i < k ==> !(#[trigger] self.databases[i]).is_connected,
                forall|i: int|
                    0 <= i < n ==> (#[trigger] self.databases[i]).name == old(self).databases[i].name
                        && self.databases[i].tables == old(self).databases[i].tables,
            decreases n - k,
        {
            self.databases[k].is_connected = false;
            k = k + 1;
        }
        if !was_connected {
            self.databases[d].is_connected = true;
        }
        assert(self@.databases =~= old(self)@.toggled().databases);
    }

    /// Name of the connected database, if one is connected.
    pub fn connected_database_name(&self) -> (name: Option<String>)
        ensures
            match name {
                Some(n) => self@.connected_name() == Some(n@),
                None => self@.connected_name() is None,
            },
    {
        let n = self.databases.len();
        let mut k: usize = 0;
        while k < n
            invariant
                k <= n,
                n == self.databases.len(),
                self@.connected_from(0) == self@.connected_from(k as int),
            decreases n - k,
        {
            if self.databases[k].is_connected {
                return Some(self.databases[k].name.clone());
            }
            k = k + 1;
        }
        None
    }

    /// Replaces the table list of the first database called `name`. Where
    /// the focus was on a table of that database it moves to the database
    /// itself. Without such a database nothing changes.
    pub fn set_tables(&mut self, name: &String, tables: Vec<DatabaseTable>)
        requires
            old(self)@.wf(),
        ensures
            final(self)@ == old(self)@.with_tables(name@, tables.deep_view()),
            final(self)@.wf(),
    {
        let n = self.databases.len();
        let mut k: usize = 0;
        while k < n
            invariant
                k <= n,
                n == self.databases.len(),
                *self == *old(self),
                old(self)@.wf(),
                self@.named_from(name@, 0) == self@.named_from(name@, k as int),
            decreases n - k,
        {
            if self.databases[k].name == *name {
                if self.database == k {
                    self.table = None;
                }
                self.databases[k].tables = tables;
                assert(self@.databases =~= old(self)@.with_tables(name@, tables.deep_view()).databases);
                assert forall|j: int| 0 <= j < n implies (#[trigger] self@.databases[j]).is_connected
                    == old(self)@.databases[j].is_connected by {}
                return ;
            }
            k = k + 1;
        }
    }

    /// The table that has the focus, if the focused row is a table.
    pub fn select_focused_table(&self) -> (table: Option<&DatabaseTable>)
        requires
            self@.wf(),
        ensures
            match table {
                Some(t) => self@.focused_table() == Some(t@),
                None => self@.focused_table() is None,
            },
    {
        match self.table {
            Some(t) => Some(&self.databases[self.database].tables[t]),
            None => None,
        }
    }

    /// Replaces the columns of the focused table. Without a focused table
    /// nothing changes.
    pub fn set_focused_columns(&mut self, columns: Vec<String>)
        requires
            old(self)@.wf(),
        ensures
            final(self)@ == old(self)@.with_focused_columns(columns.deep_view()),
            final(self)@.wf(),
    {
        match self.table {
            Some(t) => {
                let d = self.database;
                self.databases[d].tables[t].set_columns(columns);
                assert(self.databases[d as int].tables.deep_view() =~= old(self).databases[d as int].tables.deep_view().update(
                    t as int,
                    self.databases[d as int].tables[t as int]@,
                ));
                assert(self@.databases =~= old(self)@.with_focused_columns(
                    columns.deep_view(),
                ).databases);
            },
            None => {},
        }
    }

    /// Replaces the sample rows of the focused table. Without a focused
    /// table nothing changes.
    pub fn set_focused_rows(&mut self, rows: Vec<String>)
        requires
            old(self)@.wf(),
        ensures
            final(self)@ == old(self)@.with_focused_rows(rows.deep_view()),
            final(self)@.wf(),
    {
        match self.table {
            Some(t) => {
                let d = self.database;
                self.databases[d].tables[t].set_data(rows);
                assert(self.databases[d as int].tables.deep_view() =~= old(self).databases[d as int].tables.deep_view().update(
                    t as int,
                    self.databases[d as int].tables[t as int]@,
                ));
                assert(self@.databases =~= old(self)@.with_focused_rows(rows.deep_view()).databases);
            },
            None => {},
        }
    }
}

/// There is no negative number of rows.
proof fn lemma_rows_before_nonnegative(cluster: ClusterView, d: int)
    ensures
        cluster.rows_before(d) >= 0,
    decreases d,
{
    if d > 0 {
        lemma_rows_before_nonnegative(cluster, d - 1);
    }
}

/// The rows above a database are at least the rows above an earlier one,
/// that one, and its tables.
pub proof fn lemma_rows_before_grows(cluster: ClusterView, a: int, b: int)
    requires
        0 <= a <= b <= cluster.databases.len(),
    ensures
        0 <= cluster.rows_before(a) <= cluster.rows_before(b),
        a < b ==> cluster.rows_before(a) + 1 + cluster.databases[a].tables.len()
            <= cluster.rows_before(b),
    decreases b,
{
    lemma_rows_before_nonnegative(cluster, a);
    if a < b - 1 {
        lemma_rows_before_grows(cluster, a, b - 1);
    }
}

/// The focused row is a row of the tree.
pub proof fn lemma_row_index_in_range(cluster: ClusterView)
    requires
        cluster.focus_valid(),
        cluster.databases.len() > 0,
    ensures
        0 <= cluster.row_index() < cluster.row_count(),
{
    lemma_rows_before_grows(cluster, cluster.database, cluster.databases.len() as int);
}

/// Moving down goes to the next row of the tree and from the last row to
/// the first, and keeps the invariant.
pub proof fn lemma_moved_down_is_next_row(cluster: ClusterView)
    requires
        cluster.wf(),
        cluster.databases.len() > 0,
    ensures
        cluster.moved_down().wf(),
        cluster.moved_down().databases == cluster.databases,
        cluster.moved_down().row_index() == (cluster.row_index() + 1) % cluster.row_count(),
{
    let n = cluster.databases.len() as int;
    let moved = cluster.moved_down();
    lemma_row_index_in_range(cluster);
    lemma_rows_before_grows(cluster, cluster.database, n);
    assert(moved.rows_before(moved.database) == cluster.rows_before(moved.database)) by {
        lemma_rows_before_same(cluster, moved, moved.database);
    }
    assert(moved.row_count() == cluster.row_count()) by {
        lemma_rows_before_same(cluster, moved, n);
    }
    let below = match cluster.table {
        None => 0,
        Some(t) => t + 1,
    };
    if below < cluster.databases[cluster.database].tables.len() {
        lemma_fundamental_div_mod_converse(
            cluster.row_index() + 1,
            cluster.row_count(),
            0,
            moved.row_index(),
        );
    } else if cluster.database + 1 < n {
        lemma_rows_before_grows(cluster, cluster.database + 1, n);
        lemma_rows_before_grows(cluster, cluster.database, cluster.database + 1);
        assert(cluster.rows_before(cluster.database + 1) == cluster.rows_before(cluster.database)
            + 1 + cluster.databases[cluster.database].tables.len());
        lemma_row_index_in_range(moved);
        lemma_fundamental_div_mod_converse(
            cluster.row_index() + 1,
            cluster.row_count(),
            0,
            moved.row_index(),
        );
    } else {
        assert(cluster.rows_before(n) == cluster.rows_before(n - 1) + 1 + cluster.databases[n
            - 1].tables.len());
        assert(cluster.row_index() + 1 == cluster.row_count());
        lemma_fundamental_div_mod_converse(cluster.row_index() + 1, cluster.row_count(), 1, 0);
    }
}

/// Moving up goes to the previous row of the tree and from the first row to
/// the last, and keeps the invariant.
pub proof fn lemma_moved_up_is_previous_row(cluster: ClusterView)
    requires
        cluster.wf(),
        cluster.databases.len() > 0,
    ensures
        cluster.moved_up().wf(),
        cluster.moved_up().databases == cluster.databases,
        cluster.moved_up().row_index() == (cluster.row_index() + cluster.row_count() - 1)
            % cluster.row_count(),
{
    let n = cluster.databases.len() as int;
    let moved = cluster.moved_up();
    lemma_row_index_in_range(cluster);
    lemma_rows_before_same(cluster, moved, moved.database);
    lemma_rows_before_same(cluster, moved, n);
    match cluster.table {
        Some(t) => {
            lemma_rows_before_nonnegative(cluster, cluster.database);
            lemma_fundamental_div_mod_converse(
                cluster.row_index() + cluster.row_count() - 1,
                cluster.row_count(),
                1,
                moved.row_index(),
            );
        },
        None => {
            if cluster.database == 0 {
                assert(cluster.rows_before(n) == cluster.rows_before(n - 1) + 1
                    + cluster.databases[n - 1].tables.len());
                assert(moved.row_index() == cluster.row_count() - 1);
                lemma_fundamental_div_mod_converse(
                    cluster.row_index() + cluster.row_count() - 1,
                    cluster.row_count(),
                    0,
                    moved.row_index(),
                );
            } else {
                let d = cluster.database;
                assert(cluster.rows_before(d) == cluster.rows_before(d - 1) + 1 + cluster.databases[d
                    - 1].tables.len());
                assert(moved.row_index() == cluster.row_index() - 1);
                lemma_rows_before_grows(cluster, 0, d - 1);
                lemma_fundamental_div_mod_converse(
                    cluster.row_index() + cluster.row_count() - 1,
                    cluster.row_count(),
                    1,
                    moved.row_index(),
                );
            }
        },
    }
}

/// Two clusters of the same databases have the same rows.
proof fn lemma_rows_before_same(a: ClusterView, b: ClusterView, d: int)
    requires
        a.databases == b.databases,
    ensures
        a.rows_before(d) == b.rows_before(d),
    decreases d,
{
    if d > 0 {
        lemma_rows_before_same(a, b, d - 1);
    }
}

/// Moving down and then up, or up and then down, comes back to where the
/// focus was.
pub proof fn lemma_moves_undo_each_other(cluster: ClusterView)
    requires
        cluster.wf(),
    ensures
        cluster.moved_down().moved_up() == cluster,
        cluster.moved_up().moved_down() == cluster,
{
}

/// After a toggle at most one database is connected, whatever was connected
/// before: the focused one if it was not connected, else none.
pub proof fn lemma_toggled_connects_at_most_one(cluster: ClusterView)
    requires
        cluster.focus_valid(),
    ensures
        cluster.toggled().wf(),
        forall|i: int|
            0 <= i < cluster.databases.len() ==> ((#[trigger] cluster.toggled().databases[i]).is_connected
                <==> i == cluster.database && !cluster.databases[i].is_connected),
{
}

/// What a toggle leaves connected: the focused database where it was not
/// connected before, else nothing.
pub proof fn lemma_toggled_connected_name(cluster: ClusterView)
    requires
        cluster.focus_valid(),
    ensures
        cluster.toggled().connected_name() == if cluster.databases.len() > 0
            && !cluster.databases[cluster.database].is_connected {
            Some(cluster.databases[cluster.database].name)
        } else {
            None
        },
{
    let toggled = cluster.toggled();
    lemma_connected_from(toggled, 0);
    let found = toggled.connected_from(0);
    if cluster.databases.len() > 0 {
        let d = cluster.database;
        assert(toggled.databases[d].is_connected == !cluster.databases[d].is_connected);
        if found < toggled.databases.len() {
            assert(toggled.databases[found].is_connected);
        }
    }
}

/// What `connected_from` finds: the first connected database at or after
/// `from`.
proof fn lemma_connected_from(cluster: ClusterView, from: int)
    requires
        0 <= from <= cluster.databases.len(),
    ensures
        from <= cluster.connected_from(from) <= cluster.databases.len(),
        cluster.connected_from(from) < cluster.databases.len()
            ==> cluster.databases[cluster.connected_from(from)].is_connected,
        forall|j: int|
            from <= j < cluster.connected_from(from) ==> !(#[trigger] cluster.databases[j]).is_connected,
    decreases cluster.databases.len() - from,
{
    if from < cluster.databases.len() && !cluster.databases[from].is_connected {
        lemma_connected_from(cluster, from + 1);
    }
}

/// Replacing the tables of a database keeps the invariant and every
/// connected flag.
pub proof fn lemma_with_tables_keeps_flags(
    cluster: ClusterView,
    name: Seq<char>,
    tables: Seq<DatabaseTableView>,
)
    requires
        cluster.wf(),
    ensures
        cluster.with_tables(name, tables).wf(),
        cluster.with_tables(name, tables).databases.len() == cluster.databases.len(),
        forall|i: int|
            0 <= i < cluster.databases.len() ==> (#[trigger] cluster.with_tables(
                name,
                tables,
            ).databases[i]).is_connected == cluster.databases[i].is_connected,
{
    lemma_named_from(cluster, name, 0);
}

/// What `named_from` finds lies at or after `from` and within the cluster.
proof fn lemma_named_from(cluster: ClusterView, name: Seq<char>, from: int)
    requires
        0 <= from <= cluster.databases.len(),
    ensures
        from <= cluster.named_from(name, from) <= cluster.databases.len(),
    decreases cluster.databases.len() - from,
{
    if from < cluster.databases.len() && cluster.databases[from].name != name {
        lemma_named_from(cluster, name, from + 1);
    }
}

/// Replacing the columns or the rows of the focused table keeps the
/// invariant and every connected flag.
pub proof fn lemma_with_focused_table_keeps_flags(cluster: ClusterView, table: DatabaseTableView)
    requires
        cluster.wf(),
    ensures
        cluster.with_focused_table(table).wf(),
        cluster.with_focused_table(table).databases.len() == cluster.databases.len(),
        forall|i: int|
            0 <= i < cluster.databases.len() ==> (#[trigger] cluster.with_focused_table(
                table,
            ).databases[i]).is_connected == cluster.databases[i].is_connected,
{
}

} // verus!
