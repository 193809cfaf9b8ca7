use atri_bot::config::log::{Level, LogConfig};
use atri_bot::config::login::{true_bool, LoginConfig, Protocol};
use atri_bot::config::plugin::FaultAttitude;
use atri_bot::config::service::ServiceConfig;
use atri_bot::config::{clients_dir_path, service_config_dir_path};
use atri_bot::data::{font_data_buf, DATA_PATH, FONT_DATA_PATH};
use atri_bot::path::join_path;

#[test]
fn config_directories() {
    assert_eq!(service_config_dir_path(), "service");
    assert_eq!(clients_dir_path(), "clients");
}

#[test]
fn service_config_path_is_in_the_service_directory() {
    let c: ServiceConfig<()> = ServiceConfig::new("login", b"x = 1");
    assert_eq!(c.path(), "service/login.toml");
    assert_eq!(c.service_name(), "login");
    assert_eq!(c.default_config(), b"x = 1");
    let abs: ServiceConfig<()> = ServiceConfig::new("/etc/atri", b"");
    assert_eq!(abs.path(), "/etc/atri.toml");
}

#[test]
fn font_directory() {
    assert_eq!(font_data_buf(), "data/font");
    assert_eq!(DATA_PATH, "data");
    assert_eq!(FONT_DATA_PATH, "font");
}

#[test]
fn path_joining() {
    assert_eq!(join_path("", "a"), "a");
    assert_eq!(join_path("a", "b"), "a/b");
    assert_eq!(join_path("a/", "b"), "a/b");
    assert_eq!(join_path("a", "/b"), "/b");
    assert_eq!(join_path("a", ""), "a/");
}

#[test]
fn defaults() {
    let l = LogConfig::default();
    assert_eq!(l.max_level, Level::Info);
    assert_eq!(l.time_format, "[year]-[month]-[day] [hour]:[minute]:[second]");
    let c = LoginConfig::default();
    assert_eq!(c.default_protocol, Protocol::IPAD);
    assert!(!c.auto_reconnect);
    assert!(c.clients.is_empty());
    assert_eq!(Protocol::default(), Protocol::IPAD);
    assert_eq!(FaultAttitude::default(), FaultAttitude::FastFault);
    assert!(true_bool());
}
