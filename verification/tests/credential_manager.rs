use sqlide::postgres::credential_manager::{ConnectionOptions, CredentialManager};

fn profile(host: &str, db_name: &str) -> ConnectionOptions {
    ConnectionOptions {
        host: host.to_string(),
        port: 5432,
        user: "postgres".to_string(),
        db_name: db_name.to_string(),
        password: None,
    }
}

#[test]
fn a_new_store_holds_no_profile() {
    let manager = CredentialManager::new();
    assert!(manager.get_connection("local").is_none());
}

#[test]
fn a_saved_profile_is_found_by_its_name() {
    let mut manager = CredentialManager::new();
    manager.add_connection("local".to_string(), profile("localhost", "shop"));
    let found = manager.get_connection("local").unwrap();
    assert_eq!(found.host, "localhost");
    assert_eq!(found.db_name, "shop");
    assert_eq!(found.port, 5432);
    assert!(manager.get_connection("remote").is_none());
}
