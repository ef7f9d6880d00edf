use neodlp_bridge::config::{
    config_file_name, config_file_path_of, config_path_in, get_config_dir, get_config_file_path,
    get_config_path, get_websocket_url, listen_address, load_config, project_application,
    project_organization, project_qualifier, Config, DEFAULT_PORT,
};
use std::path::PathBuf;

#[test]
fn default_port_is_53511() {
    assert_eq!(Config::default().port, 53511);
    assert_eq!(DEFAULT_PORT, 53511);
}

#[test]
fn missing_configuration_falls_back_to_the_default() {
    assert_eq!(load_config(None), Config { port: 53511 });
    assert_eq!(load_config(Some(Config { port: 8080 })), Config { port: 8080 });
    assert_eq!(load_config(Some(Config { port: 0 })), Config { port: 0 });
}

#[test]
fn websocket_url_names_localhost_and_the_port() {
    assert_eq!(get_websocket_url(&Config { port: 53511 }), "ws://localhost:53511");
    assert_eq!(get_websocket_url(&Config { port: 0 }), "ws://localhost:0");
    assert_eq!(get_websocket_url(&Config { port: 65535 }), "ws://localhost:65535");
    assert_eq!(get_websocket_url(&Config { port: 10 }), "ws://localhost:10");
}

#[test]
fn listen_address_is_the_loopback_interface() {
    assert_eq!(listen_address(53511), "127.0.0.1:53511");
    assert_eq!(listen_address(9), "127.0.0.1:9");
}

#[test]
fn config_path_is_the_file_under_the_directory() {
    assert_eq!(config_file_name(), "msghost-config.json");
    let dir = PathBuf::from("some").join("where");
    let path = config_path_in(Some(dir.clone())).unwrap();
    assert_eq!(path, dir.join("msghost-config.json"));
    assert_eq!(path.parent(), Some(dir.as_path()));
    assert!(config_path_in(None).is_none());
}

#[test]
fn config_path_follows_the_config_dir() {
    let dir = get_config_dir();
    let path = get_config_path();
    assert_eq!(path.is_some(), dir.is_some());
    if let (Some(dir), Some(path)) = (dir, path) {
        assert_eq!(path, dir.join("msghost-config.json"));
        assert!(dir.to_string_lossy().contains("neodlp"));
    }
}

#[test]
fn config_file_path_as_text() {
    let path = PathBuf::from("dir").join("msghost-config.json");
    assert_eq!(config_file_path_of(Some(path.clone())), Ok(path.to_string_lossy().into_owned()));
    assert_eq!(config_file_path_of(None), Err("Could not determine config path".to_string()));
    match (get_config_path(), get_config_file_path()) {
        (Some(path), Ok(text)) => assert_eq!(text, path.to_string_lossy()),
        (None, Err(reason)) => assert_eq!(reason, "Could not determine config path"),
        _ => panic!("the text does not follow the path"),
    }
}

#[test]
fn project_names_of_the_application() {
    assert_eq!(project_qualifier(), "com");
    assert_eq!(project_organization(), "neosubhamoy");
    assert_eq!(project_application(), "neodlp");
}
