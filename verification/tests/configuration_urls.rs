use prostor::configuration::CognitoConfig;
use prostor::configuration::DatabaseConfig;

#[test]
fn issuer_and_key_set_urls_derived() {
    let config = CognitoConfig {
        region: "us-east-1".to_string(),
        user_pool_id: "abc123".to_string(),
    };
    assert_eq!(config.issuer(), "https://cognito-idp.us-east-1.amazonaws.com/abc123");
    assert_eq!(
        config.jwks_uri(),
        "https://cognito-idp.us-east-1.amazonaws.com/abc123/.well-known/jwks.json"
    );
}

#[test]
fn urls_follow_the_configured_values() {
    let config = CognitoConfig {
        region: "eu-west-2".to_string(),
        user_pool_id: "pool-77".to_string(),
    };
    assert_eq!(config.issuer(), "https://cognito-idp.eu-west-2.amazonaws.com/pool-77");
    assert_eq!(
        config.jwks_uri(),
        "https://cognito-idp.eu-west-2.amazonaws.com/pool-77/.well-known/jwks.json"
    );
    let copy = config.clone();
    assert_eq!(copy.issuer(), config.issuer());
}

#[test]
fn database_config_carries_connection_parameters() {
    let db = DatabaseConfig {
        host: "localhost".to_string(),
        port: 5432,
        username: "postgres".to_string(),
        password: "example-password".to_string(),
        database: "prostor".to_string(),
    };
    assert_eq!(db.port, 5432);
    assert_eq!(db.host, "localhost");
    assert_eq!(db.database, "prostor");
}
