use erp::database::Config;

#[test]
fn configured_host_is_taken_as_it_is() {
    let config = Config::new(
        Some("localhost".to_string()),
        Some("project:region:instance".to_string()),
        "locutor".to_string(),
        "secret".to_string(),
        "erp-database".to_string(),
    );
    assert_eq!(config.host, "localhost");
    assert_eq!(config.user, "locutor");
    assert_eq!(config.password, "secret");
    assert_eq!(config.dbname, "erp-database");
    assert_eq!(config.port, 5432);
}

#[test]
fn instance_name_gives_the_socket_directory() {
    let config = Config::new(
        None,
        Some("project:region:instance".to_string()),
        "locutor".to_string(),
        "secret".to_string(),
        "erp-database".to_string(),
    );
    assert_eq!(config.host, "/cloudsql/project:region:instance");
    assert_eq!(config.port, 5432);
}
