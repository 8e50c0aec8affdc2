use firebolt_gateway::advertising::{AdConfig, Environment, GetAdConfig};

#[test]
fn test_default() {
    let default_config = GetAdConfig::default();
    let expected_config = GetAdConfig {
        options: AdConfig {
            environment: Environment::Prod,
            coppa: Some(false),
            authentication_entity: Some("".to_owned()),
        },
    };
    assert_eq!(default_config, expected_config);
}

#[test]
fn environment_wire_names() {
    assert_eq!(Environment::Prod.as_string(), "prod");
    assert_eq!(Environment::Test.as_string(), "test");
}

#[test]
fn ad_config_default_leaves_options_absent() {
    let config = AdConfig::default();
    assert_eq!(config.environment, Environment::Prod);
    assert_eq!(config.coppa, None);
    assert_eq!(config.authentication_entity, None);
}
