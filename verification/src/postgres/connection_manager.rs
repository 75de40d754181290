//! The active session: which target it is on, and the statements it sends.
//!
//! The live connection belongs to the program around this library. This
//! module decides what that program connects to and what it sends, and
//! records which target the session is on.

use vstd::prelude::*;
use vstd::string::StringExecFns;
use crate::app::{PSQLConnectionOptions, PSQLConnectionOptionsView};
use crate::postgres::error::{ConnectError, QueryError};
use crate::postgres::identifier::{is_identifier, quote_identifier, quoted};

verus! {

/// A statement for the wire client: its text and the values of its
/// parameters `$1`, `$2`, ... in order.
pub struct Query {
    pub text: String,
    pub params: Vec<String>,
}

/// What a [`Query`] holds.
pub struct QueryView {
    pub text: Seq<char>,
    pub params: Seq<Seq<char>>,
}

impl View for Query {
    type V = QueryView;

    open spec fn view(&self) -> QueryView {
        QueryView { text: self.text@, params: self.params.deep_view() }
    }
}

/// The connection string of a target, in the key-value form of libpq. No
/// password is part of it.
pub open spec fn target(options: PSQLConnectionOptionsView) -> Seq<char> {
    "host="@ + options.host + " user="@ + options.user + " dbname="@ + options.db_name
}

/// The statement that lists the databases that are no templates.
pub open spec fn databases_statement() -> Seq<char> {
    "SELECT datname from pg_database WHERE datistemplate = false"@
}

/// The statement that lists the tables of the public schema.
pub open spec fn tables_statement() -> Seq<char> {
    "SELECT tablename FROM pg_tables where schemaname = 'public'"@
}

/// The statement that lists the columns of the table named by `$1`.
pub open spec fn columns_statement() -> Seq<char> {
    "SELECT column_name FROM information_schema.columns where table_name = ($1)"@
}

/// The statement that fetches the sample rows of a table.
pub open spec fn sample_statement(table_name: Seq<char>) -> Seq<char> {
    "SELECT * FROM "@ + quoted(table_name) + " LIMIT 10"@
}

/// The session manager: it knows the target of the one active session.
pub struct ConnectionManager {
    current_connection: String,
}

impl View for ConnectionManager {
    type V = Seq<char>;

    /// The connection string of the active session.
    closed spec fn view(&self) -> Seq<char> {
        self.current_connection@
    }
}

impl ConnectionManager {
    /// The connection string to hand to the wire client for `options`.
    pub fn connection_string(options: &PSQLConnectionOptions) -> (text: String)
        ensures
            text@ == target(options@),
    {
        let mut text = String::from_str("host=");
        text.append(options.host.as_str());
        text.append(" user=");
        text.append(options.user.as_str());
        text.append(" dbname=");
        text.append(options.db_name.as_str());
        text
    }

    /// The manager of a session that was opened on `connection_options`.
    pub fn new(connection_options: PSQLConnectionOptions) -> (manager: ConnectionManager)
        ensures
            manager@ == target(connection_options@),
    {
        ConnectionManager { current_connection: Self::connection_string(&connection_options) }
    }

    /// The connection string of the active session.
    pub fn current_connection(&self) -> (text: &String)
        ensures
            text@ == self@,
    {
        &self.current_connection
    }

    /// The statement that lists the databases of the server.
    pub fn get_databases(&self) -> (query: Query)
        ensures
            query@ == (QueryView { text: databases_statement(), params: Seq::empty() }),
    {
        let query = Query {
            text: String::from_str("SELECT datname from pg_database WHERE datistemplate = false"),
            params: Vec::new(),
        };
        assert(query.params.deep_view() =~= Seq::<Seq<char>>::empty());
        query
    }

    /// The statement that lists the tables of the active database.
    pub fn get_tables_for_database(&self) -> (query: Query)
        ensures
            query@ == (QueryView { text: tables_statement(), params: Seq::empty() }),
    {
        let query = Query {
            text: String::from_str("SELECT tablename FROM pg_tables where schemaname = 'public'"),
            params: Vec::new(),
        };
        assert(query.params.deep_view() =~= Seq::<Seq<char>>::empty());
        query
    }

    /// Takes the outcome of the attempt to open a session on
    /// `connection_options`. On success that session becomes the active one.
    /// On failure the active session stays as it was and the error is handed
    /// on.
    pub fn create_database_connection(
        &mut self,
        connection_options: PSQLConnectionOptions,
        outcome: Result<(), ConnectError>,
    ) -> (result: Result<(), ConnectError>)
        ensures
            result == outcome,
            final(self)@ == if outcome is Ok {
                target(connection_options@)
            } else {
                old(self)@
            },
    {
        if outcome.is_ok() {
            self.current_connection = Self::connection_string(&connection_options);
        }
        outcome
    }

    /// The statement that lists the columns of `table_name`. The name is a
    /// parameter of the statement, never part of its text.
    pub fn get_table(&self, table_name: &String) -> (query: Query)
        ensures
            query@ == (QueryView { text: columns_statement(), params: seq![table_name@] }),
    {
        let mut params: Vec<String> = Vec::new();
        params.push(table_name.clone());
        let query = Query {
            text: String::from_str(
                "SELECT column_name FROM information_schema.columns where table_name = ($1)",
            ),
            params,
        };
        assert(query.params.deep_view() =~= seq![table_name@]);
        query
    }

    /// The statement that fetches up to ten rows of `table_name`. The name
    /// stands in the text as a quoted identifier; a name that cannot be
    /// written as one is refused.
    pub fn get_data(&self, table_name: &String) -> (result: Result<Query, QueryError>)
        ensures
            match result {
                Ok(query) => is_identifier(table_name@) && query@ == (QueryView {
                    text: sample_statement(table_name@),
                    params: Seq::empty(),
                }),
                Err(QueryError::InvalidIdentifier(refused)) => !is_identifier(table_name@)
                    && refused@ == table_name@,
                Err(_) => false,
            },
    {
        match quote_identifier(table_name.as_str()) {
            Ok(identifier) => {
                let mut text = String::from_str("SELECT * FROM ");
                text.append(identifier.as_str());
                text.append(" LIMIT 10");
                let query = Query { text, params: Vec::new() };
                assert(query.params.deep_view() =~= Seq::<Seq<char>>::empty());
                Ok(query)
            },
            Err(error) => Err(error),
        }
    }
}

} // verus!
