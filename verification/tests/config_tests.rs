use server::config::{
    default_galaxy_version, default_host, default_port, default_worker_capacity, AppConfig,
    ConfigVars,
};
use server::error::AppError;

fn vars(db: Option<&str>) -> ConfigVars {
    ConfigVars {
        database_url: db.map(|s| s.to_string()),
        server_host: None,
        server_port: None,
        github_token: None,
        worker_queue_capacity: None,
        galaxy_version: None,
    }
}

#[test]
fn defaults() {
    assert_eq!(default_host(), "0.0.0.0");
    assert_eq!(default_port(), 8080);
    assert_eq!(default_worker_capacity(), 512);
    assert_eq!(default_galaxy_version(), 1);
}

#[test]
fn only_database_url_given() {
    let c = AppConfig::from_vars(vars(Some("postgres://db"))).unwrap();
    assert_eq!(c.database_url, "postgres://db");
    assert_eq!(c.server_host, "0.0.0.0");
    assert_eq!(c.server_port, 8080);
    assert_eq!(c.github_token, None);
    assert_eq!(c.worker_queue_capacity, 512);
    assert_eq!(c.galaxy_version, 1);
}

#[test]
fn missing_database_url_is_an_error() {
    let e = AppConfig::from_vars(vars(None)).unwrap_err();
    assert_eq!(e, AppError::Other("DATABASE_URL is not set".to_string()));
}

#[test]
fn settings_given() {
    let mut v = vars(Some("postgres://db"));
    v.server_host = Some("127.0.0.1".to_string());
    v.server_port = Some("3000".to_string());
    v.github_token = Some("tok".to_string());
    v.worker_queue_capacity = Some("64".to_string());
    v.galaxy_version = Some("-3".to_string());
    let c = AppConfig::from_vars(v).unwrap();
    assert_eq!(c.server_host, "127.0.0.1");
    assert_eq!(c.server_port, 3000);
    assert_eq!(c.github_token, Some("tok".to_string()));
    assert_eq!(c.worker_queue_capacity, 64);
    assert_eq!(c.galaxy_version, -3);
}

#[test]
fn unparsable_settings_fall_back() {
    let mut v = vars(Some("postgres://db"));
    v.server_port = Some("70000".to_string());
    v.worker_queue_capacity = Some("many".to_string());
    v.galaxy_version = Some("".to_string());
    let c = AppConfig::from_vars(v).unwrap();
    assert_eq!(c.server_port, 8080);
    assert_eq!(c.worker_queue_capacity, 512);
    assert_eq!(c.galaxy_version, 1);
}

#[test]
fn bind_address_joins_host_and_port() {
    let mut v = vars(Some("postgres://db"));
    v.server_port = Some("9000".to_string());
    let c = AppConfig::from_vars(v).unwrap();
    assert_eq!(c.bind_address(), "0.0.0.0:9000");
}
