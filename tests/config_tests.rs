use dynamo_export::config::{
    resolve_settings, ConfigError, DynamoConfig, ScanConfig, PRIMARY_KEY_NAME_VAR, PROFILE_VAR,
    TABLE_NAME_VAR,
};

fn some(s: &str) -> Option<String> {
    Some(s.to_string())
}

#[test]
fn scan_config_new_keeps_names() {
    let c = ScanConfig::new("my_table", "id");
    assert_eq!(c.table_name, "my_table");
    assert_eq!(c.primary_key_name, "id");
    assert_eq!(c.output_file, "");
}

#[test]
fn scan_config_output_file_is_set() {
    let mut c = ScanConfig::new("my_table", "id");
    c.set_output_file("out/dynamodb_items.csv");
    assert_eq!(c.output_file, "out/dynamodb_items.csv");
    assert_eq!(c.table_name, "my_table");
    assert_eq!(c.primary_key_name, "id");
}

#[test]
fn dynamo_config_new_keeps_profile() {
    let c = DynamoConfig::new("default");
    assert_eq!(c.profile_name, "default");
}

#[test]
fn scan_config_from_present_values() {
    let c = ScanConfig::from_env_values(some("my_table"), some("id")).unwrap();
    assert_eq!(c.table_name, "my_table");
    assert_eq!(c.primary_key_name, "id");
    assert_eq!(c.output_file, "");
}

#[test]
fn scan_config_missing_table_name() {
    let r = ScanConfig::from_env_values(None, some("id"));
    assert_eq!(r.unwrap_err(), ConfigError::MissingTableName);
    let r = ScanConfig::from_env_values(None, None);
    assert_eq!(r.unwrap_err(), ConfigError::MissingTableName);
}

#[test]
fn scan_config_missing_primary_key_name() {
    let r = ScanConfig::from_env_values(some("my_table"), None);
    assert_eq!(r.unwrap_err(), ConfigError::MissingPrimaryKeyName);
}

#[test]
fn dynamo_config_from_values() {
    let c = DynamoConfig::from_env_values(some("dev")).unwrap();
    assert_eq!(c.profile_name, "dev");
    let r = DynamoConfig::from_env_values(None);
    assert_eq!(r.unwrap_err(), ConfigError::MissingProfile);
}

#[test]
fn settings_equal_environment_values() {
    let s = resolve_settings(some("orders"), some("order_id"), some("prod")).unwrap();
    assert_eq!(s.scan.table_name, "orders");
    assert_eq!(s.scan.primary_key_name, "order_id");
    assert_eq!(s.scan.output_file, "");
    assert_eq!(s.connection.profile_name, "prod");
}

#[test]
fn settings_missing_any_one_fail() {
    assert_eq!(
        resolve_settings(None, some("id"), some("p")).unwrap_err(),
        ConfigError::MissingTableName
    );
    assert_eq!(
        resolve_settings(some("t"), None, some("p")).unwrap_err(),
        ConfigError::MissingPrimaryKeyName
    );
    assert_eq!(
        resolve_settings(some("t"), some("id"), None).unwrap_err(),
        ConfigError::MissingProfile
    );
}

#[test]
fn missing_profile_stops_before_any_scan() {
    // The run is resolved as a whole before a client or a scan exists.
    let r = resolve_settings(some("my_table"), some("id"), None);
    assert!(matches!(r, Err(ConfigError::MissingProfile)));
}

#[test]
fn config_error_names_its_variable() {
    assert_eq!(ConfigError::MissingTableName.variable(), "DYNAMODB_TABLE_NAME");
    assert_eq!(ConfigError::MissingPrimaryKeyName.variable(), "DYNAMODB_PRIMARY_KEY_NAME");
    assert_eq!(ConfigError::MissingProfile.variable(), "AWS_PROFILE");
    assert_eq!(TABLE_NAME_VAR, "DYNAMODB_TABLE_NAME");
    assert_eq!(PRIMARY_KEY_NAME_VAR, "DYNAMODB_PRIMARY_KEY_NAME");
    assert_eq!(PROFILE_VAR, "AWS_PROFILE");
}
