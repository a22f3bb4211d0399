use pubky_homeserver_mvp::config::validate_data_dir_path;
use pubky_homeserver_mvp::Config;

#[test]
fn default_config_values() {
    let config = Config::default();
    assert_eq!(config.general.server_name, "pubky-homeserver-mvp");
    assert_eq!(config.server.listen_socket, "127.0.0.1:8080");
    assert_eq!(config.storage.db_path, "data/lmdb");
    assert_eq!(config.logging.level, "info");
}

#[test]
fn data_dir_path_accepted_when_not_an_existing_file() {
    let result = validate_data_dir_path("/tmp/some-data-dir", false);
    assert_eq!(result.unwrap(), "/tmp/some-data-dir");
}

#[test]
fn data_dir_path_rejected_when_it_names_a_file() {
    let result = validate_data_dir_path("/tmp/some-file", true);
    assert_eq!(
        result.unwrap_err(),
        "Given path is not a directory: /tmp/some-file"
    );
}
