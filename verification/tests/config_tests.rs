use reading_app_web::serve_config::{
    config_path, default_address, default_open, default_port, Config, ServeConfig, ServeSection,
};

#[test]
fn defaults() {
    assert_eq!(default_address(), "127.0.0.1");
    assert_eq!(default_port(), 8080);
    assert!(default_open());
    let d = ServeConfig::default();
    assert_eq!(d.address, "127.0.0.1");
    assert_eq!(d.port, 8080);
    assert!(d.open);
}

#[test]
fn missing_section_takes_defaults() {
    let c = Config::from_document(None);
    assert_eq!(c.serve.address, "127.0.0.1");
    assert_eq!(c.serve.port, 8080);
    assert!(c.serve.open);
    let d = Config::default();
    assert_eq!(d.serve.port, 8080);
}

#[test]
fn missing_keys_take_defaults() {
    let c = Config::from_document(Some(ServeSection { address: None, port: Some(3000), open: None }));
    assert_eq!(c.serve.address, "127.0.0.1");
    assert_eq!(c.serve.port, 3000);
    assert!(c.serve.open);
    let c = Config::from_document(Some(ServeSection {
        address: Some("0.0.0.0".to_string()),
        port: None,
        open: Some(false),
    }));
    assert_eq!(c.serve.address, "0.0.0.0");
    assert_eq!(c.serve.port, 8080);
    assert!(!c.serve.open);
}

#[test]
fn output_lines_report_the_configuration() {
    let lines = ServeConfig::default().output_lines();
    assert_eq!(lines, vec!["SERVE_ADDRESS=127.0.0.1", "SERVE_PORT=8080", "SERVE_OPEN=true"]);
    let c = ServeConfig { address: "localhost".to_string(), port: 0, open: false };
    assert_eq!(c.output_lines(), vec!["SERVE_ADDRESS=localhost", "SERVE_PORT=0", "SERVE_OPEN=false"]);
    let c = ServeConfig { address: String::new(), port: 65535, open: true };
    assert_eq!(c.output_lines()[1], "SERVE_PORT=65535");
}

#[test]
fn port_text_matches_display() {
    for port in [0u16, 1, 9, 10, 99, 100, 1000, 8080, 9999, 10000, 65535] {
        let c = ServeConfig { address: String::new(), port, open: true };
        assert_eq!(c.output_lines()[1], format!("SERVE_PORT={port}"));
    }
}

#[test]
fn config_path_defaults_to_development_file() {
    assert_eq!(config_path(None), "config/development.toml");
    assert_eq!(config_path(Some("other.toml".to_string())), "other.toml");
}
