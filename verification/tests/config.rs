use affect_server::config::{config_source, port_source, ConfigSource, PortSource};

#[test]
fn configuration_comes_from_exactly_one_place() {
    assert_eq!(
        config_source(None, Some("port = 1".to_string())),
        ConfigSource::Inline("port = 1".to_string())
    );
    assert_eq!(
        config_source(Some("/etc/affect.toml".to_string()), None),
        ConfigSource::File("/etc/affect.toml".to_string())
    );
    assert_eq!(
        config_source(Some("/etc/affect.toml".to_string()), Some("port = 1".to_string())),
        ConfigSource::Ambiguous
    );
    assert_eq!(config_source(None, None), ConfigSource::Missing);
}

#[test]
fn port_comes_from_exactly_one_place() {
    assert_eq!(port_source(Some(8080), None), PortSource::Fixed(8080));
    assert_eq!(port_source(Some(0), None), PortSource::Fixed(0));
    assert_eq!(
        port_source(None, Some("PORT".to_string())),
        PortSource::Variable("PORT".to_string())
    );
    assert_eq!(port_source(Some(8080), Some("PORT".to_string())), PortSource::Unsettled);
    assert_eq!(port_source(None, None), PortSource::Unsettled);
}
