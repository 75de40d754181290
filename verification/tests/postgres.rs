use sqlide::app::PSQLConnectionOptions;
use sqlide::postgres::connection_manager::ConnectionManager;
use sqlide::postgres::connection_pool_manager::{ConnectionContext, ConnectionPoolManager};
use sqlide::postgres::error::{ConnectError, PoolError, QueryError};
use sqlide::postgres::identifier::quote_identifier;
use sqlide::text::{sorted, take_text};

fn options(host: &str, user: &str, db_name: &str) -> PSQLConnectionOptions {
    PSQLConnectionOptions {
        host: host.to_string(),
        user: user.to_string(),
        db_name: db_name.to_string(),
    }
}

fn manager() -> ConnectionManager {
    ConnectionManager::new(options("localhost", "postgres", "postgres"))
}

#[test]
fn the_connection_string_names_host_user_and_database() {
    let text = ConnectionManager::connection_string(&options("db.example.org", "alice", "shop"));
    assert_eq!(text, "host=db.example.org user=alice dbname=shop");
}

#[test]
fn the_default_target_is_the_local_postgres_database() {
    let defaults = PSQLConnectionOptions::from_environment(None, None, None);
    assert_eq!(
        ConnectionManager::connection_string(&defaults),
        "host=localhost user=postgres dbname=postgres"
    );
}

#[test]
fn a_session_is_replaced_only_when_the_new_one_is_open() {
    let mut manager = manager();
    let refused = manager.create_database_connection(
        options("nowhere", "postgres", "shop"),
        Err(ConnectError { message: "unreachable".to_string() }),
    );
    assert_eq!(refused.unwrap_err().message(), "unreachable");
    assert_eq!(manager.current_connection(), "host=localhost user=postgres dbname=postgres");
    let opened = manager.create_database_connection(options("localhost", "postgres", "shop"), Ok(()));
    assert!(opened.is_ok());
    assert_eq!(manager.current_connection(), "host=localhost user=postgres dbname=shop");
}

#[test]
fn the_catalog_statements_take_no_parameter() {
    let databases = manager().get_databases();
    assert_eq!(databases.text, "SELECT datname from pg_database WHERE datistemplate = false");
    assert!(databases.params.is_empty());
    let tables = manager().get_tables_for_database();
    assert_eq!(tables.text, "SELECT tablename FROM pg_tables where schemaname = 'public'");
    assert!(tables.params.is_empty());
}

#[test]
fn the_table_name_of_a_column_listing_is_a_parameter() {
    let name = "orders\"; DROP TABLE orders; --".to_string();
    let query = manager().get_table(&name);
    assert_eq!(
        query.text,
        "SELECT column_name FROM information_schema.columns where table_name = ($1)"
    );
    assert_eq!(query.params, vec![name]);
}

#[test]
fn the_sample_statement_quotes_the_table_name() {
    let query = manager().get_data(&"orders".to_string()).ok().unwrap();
    assert_eq!(query.text, "SELECT * FROM \"orders\" LIMIT 10");
    assert!(query.params.is_empty());
}

#[test]
fn a_quote_or_semicolon_in_a_table_name_stays_inside_the_identifier() {
    let query = manager().get_data(&"t\"; DROP TABLE u; --".to_string()).ok().unwrap();
    assert_eq!(query.text, "SELECT * FROM \"t\"\"; DROP TABLE u; --\" LIMIT 10");
    let query = manager().get_data(&"a;b".to_string()).ok().unwrap();
    assert_eq!(query.text, "SELECT * FROM \"a;b\" LIMIT 10");
}

#[test]
fn a_name_that_is_no_identifier_is_refused() {
    match manager().get_data(&String::new()) {
        Err(QueryError::InvalidIdentifier(name)) => assert_eq!(name, ""),
        _ => panic!("the empty name was to be refused"),
    }
    match manager().get_data(&"a\0b".to_string()) {
        Err(QueryError::InvalidIdentifier(name)) => assert_eq!(name, "a\0b"),
        _ => panic!("the name with a NUL was to be refused"),
    }
}

#[test]
fn quoting_doubles_every_quote() {
    assert_eq!(quote_identifier("plain").ok().unwrap(), "\"plain\"");
    assert_eq!(quote_identifier("\"").ok().unwrap(), "\"\"\"\"");
    assert_eq!(quote_identifier("a\"\"b").ok().unwrap(), "\"a\"\"\"\"b\"");
    assert_eq!(quote_identifier("größe").ok().unwrap(), "\"größe\"");
    assert!(quote_identifier("").is_err());
}

#[test]
fn the_errors_have_their_texts() {
    assert_eq!(ConnectError { message: "down".to_string() }.message(), "down");
    assert_eq!(QueryError::Failed("syntax".to_string()).message(), "syntax");
    assert_eq!(
        QueryError::InvalidIdentifier("x".to_string()).message(),
        "invalid identifier: x"
    );
    assert_eq!(PoolError::Config("c".to_string()).message(), "pool configuration: c");
    assert_eq!(PoolError::Build("b".to_string()).message(), "pool build: b");
}

#[test]
fn equal_contexts_get_the_same_handle() {
    let mut pools = ConnectionPoolManager::new();
    let first = pools.get_or_create_pool("localhost", 5432, "shop", "alice").ok().unwrap();
    let second = pools.get_or_create_pool("localhost", 5432, "shop", "alice").ok().unwrap();
    assert_eq!(first.slot, 0);
    assert_eq!(second.slot, first.slot);
    assert_eq!(pools.len(), 1);
}

#[test]
fn contexts_that_differ_in_a_field_get_different_handles() {
    let mut pools = ConnectionPoolManager::new();
    let base = pools.get_or_create_pool("localhost", 5432, "shop", "alice").ok().unwrap();
    let host = pools.get_or_create_pool("remote", 5432, "shop", "alice").ok().unwrap();
    let port = pools.get_or_create_pool("localhost", 5433, "shop", "alice").ok().unwrap();
    let dbname = pools.get_or_create_pool("localhost", 5432, "archive", "alice").ok().unwrap();
    let user = pools.get_or_create_pool("localhost", 5432, "shop", "bob").ok().unwrap();
    let slots = vec![base.slot, host.slot, port.slot, dbname.slot, user.slot];
    assert_eq!(slots, vec![0, 1, 2, 3, 4]);
    assert_eq!(pools.len(), 5);
    let again = pools.get_or_create_pool("localhost", 5433, "shop", "alice").ok().unwrap();
    assert_eq!(again.slot, port.slot);
    assert_eq!(pools.len(), 5);
}

#[test]
fn a_pool_without_a_database_name_is_refused_and_not_kept() {
    let mut pools = ConnectionPoolManager::new();
    match pools.get_or_create_pool("localhost", 5432, "", "alice") {
        Err(PoolError::Config(cause)) => assert!(!cause.is_empty()),
        _ => panic!("the pool was to be refused"),
    }
    assert_eq!(pools.len(), 0);
    assert!(pools.get_or_create_pool("localhost", 5432, "shop", "alice").is_ok());
    assert_eq!(pools.len(), 1);
}

#[test]
fn a_context_configures_the_wire_client() {
    let context = ConnectionContext {
        host: "db.example.org".to_string(),
        port: 6543,
        dbname: "shop".to_string(),
        user: "alice".to_string(),
    };
    let config = context.to_pg_config();
    assert_eq!(
        config.get_hosts(),
        &[tokio_postgres::config::Host::Tcp("db.example.org".to_string())]
    );
    assert_eq!(config.get_ports(), &[6543]);
    assert_eq!(config.get_dbname(), Some("shop"));
    assert_eq!(config.get_user(), Some("alice"));
}

#[test]
fn contexts_are_the_same_key_where_every_field_is_equal() {
    let context = |host: &str, port: u16, dbname: &str, user: &str| ConnectionContext {
        host: host.to_string(),
        port,
        dbname: dbname.to_string(),
        user: user.to_string(),
    };
    let base = context("h", 1, "d", "u");
    assert!(base.same(&context("h", 1, "d", "u")));
    assert!(!base.same(&context("x", 1, "d", "u")));
    assert!(!base.same(&context("h", 2, "d", "u")));
    assert!(!base.same(&context("h", 1, "x", "u")));
    assert!(!base.same(&context("h", 1, "d", "x")));
}

#[test]
fn names_are_sorted_by_their_characters() {
    let names = vec!["b", "a", "B", "ab", "", "é", "a"];
    let names: Vec<String> = names.into_iter().map(|name| name.to_string()).collect();
    assert_eq!(sorted(names), vec!["", "B", "a", "a", "ab", "b", "é"]);
}

#[test]
fn taking_a_text_leaves_it_empty() {
    let mut text = "line".to_string();
    assert_eq!(take_text(&mut text), "line");
    assert_eq!(text, "");
}
