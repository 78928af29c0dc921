use tracer_provider::config::tracer_config;

#[test]
fn builder_sets_name_and_version() {
    let config = tracer_config().with_name("io.example.lib").with_version("2.1.0");
    assert_eq!(config.name, "io.example.lib");
    assert_eq!(config.version, Some("2.1.0"));
}

#[test]
fn builder_without_version_leaves_none() {
    let config = tracer_config().with_name("io.example.lib");
    assert_eq!(config.name, "io.example.lib");
    assert_eq!(config.version, None);
}

#[test]
fn default_config_is_anonymous() {
    let config = tracer_config();
    assert_eq!(config.name, "");
    assert_eq!(config.version, None);
}

#[test]
fn builder_order_last_write_wins() {
    let config = tracer_config()
        .with_name("first")
        .with_version("0.1.0")
        .with_name("second")
        .with_version("0.2.0");
    assert_eq!(config.name, "second");
    assert_eq!(config.version, Some("0.2.0"));
}
