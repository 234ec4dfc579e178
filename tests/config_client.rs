use r2_upload::client::{build_r2_client, create_client, ClientError, ClientSettings, PutObjectRequest, WriteError};
use r2_upload::config::{ConfigError, ConfigField, R2Config};

fn s(x: &str) -> Option<String> {
    Some(x.to_string())
}

fn sample() -> R2Config {
    R2Config::from_values(s("acc123"), s("AK"), s("SK"), s("bucket")).unwrap()
}

#[test]
fn from_values_fills_defaults() {
    let c = sample();
    assert_eq!(c.account_id, "acc123");
    assert_eq!(c.access_key, "AK");
    assert_eq!(c.secret_key, "SK");
    assert_eq!(c.bucket, "bucket");
    assert_eq!(c.region.as_deref(), Some("auto"));
    assert!(c.endpoint_override.is_none());
}

#[test]
fn from_values_reports_first_missing() {
    let r = R2Config::from_values(s("acc"), None, None, s("b"));
    assert_eq!(r.unwrap_err(), ConfigError::Missing(ConfigField::AccessKey));
    let r = R2Config::from_values(None, None, None, None);
    assert_eq!(r.unwrap_err(), ConfigError::Missing(ConfigField::AccountId));
}

#[test]
fn from_values_treats_empty_as_missing() {
    let r = R2Config::from_values(s("acc"), s("AK"), s("SK"), s(""));
    assert_eq!(r.unwrap_err(), ConfigError::Missing(ConfigField::Bucket));
    let r = R2Config::from_values(s("acc"), s("AK"), s(""), s("b"));
    assert_eq!(r.unwrap_err(), ConfigError::Missing(ConfigField::SecretKey));
}

#[test]
fn endpoint_url_uses_account_id() {
    assert_eq!(sample().endpoint_url(), "https://acc123.r2.cloudflarestorage.com");
}

#[test]
fn settings_without_overrides() {
    let mut c = sample();
    c.region = s("eu");
    c.endpoint_override = s("http://localhost:9000");
    let st = ClientSettings::from_config(&c, false).unwrap();
    assert_eq!(st.region, "auto");
    assert_eq!(st.endpoint, "https://acc123.r2.cloudflarestorage.com");
    assert_eq!(st.access_key, "AK");
    assert_eq!(st.secret_key, "SK");
}

#[test]
fn settings_with_overrides() {
    let mut c = sample();
    c.region = s("eu");
    c.endpoint_override = s("http://localhost:9000");
    let st = ClientSettings::from_config(&c, true).unwrap();
    assert_eq!(st.region, "eu");
    assert_eq!(st.endpoint, "http://localhost:9000");
    c.region = None;
    let st = ClientSettings::from_config(&c, true).unwrap();
    assert_eq!(st.region, "auto");
}

#[test]
fn settings_reject_empty_values() {
    let mut c = sample();
    c.region = s("");
    assert_eq!(ClientSettings::from_config(&c, true).unwrap_err(), ClientError::Invalid(ConfigField::Region));
    assert!(ClientSettings::from_config(&c, false).is_ok());
    c.region = None;
    c.endpoint_override = s("");
    let st = ClientSettings::from_config(&c, true).unwrap();
    assert_eq!(st.endpoint, "");
    assert!(build_r2_client(&c).is_ok());
    let mut c = sample();
    c.access_key = String::new();
    assert_eq!(ClientSettings::from_config(&c, false).unwrap_err(), ClientError::Invalid(ConfigField::AccessKey));
}

#[test]
fn clients_are_built_for_complete_configs() {
    let c = sample();
    assert!(create_client(&c).is_ok());
    assert!(build_r2_client(&c).is_ok());
    let mut bad = sample();
    bad.account_id = String::new();
    assert_eq!(create_client(&bad).unwrap_err(), ClientError::Invalid(ConfigField::AccountId));
    assert_eq!(build_r2_client(&bad).unwrap_err(), ClientError::Invalid(ConfigField::AccountId));
}

#[test]
fn put_request_rejects_empty_key_and_body() {
    let r = PutObjectRequest::new("b".into(), String::new(), vec![1], Some("t".into()), vec![]);
    assert_eq!(r.unwrap_err(), WriteError::EmptyKey);
    let r = PutObjectRequest::new("b".into(), "k".into(), vec![], None, vec![]);
    assert_eq!(r.unwrap_err(), WriteError::EmptyBody);
    let r = PutObjectRequest::new("b".into(), "k".into(), vec![7, 8], Some("t".into()), vec![("a".into(), "b".into())]).unwrap();
    assert_eq!(r.bucket, "b");
    assert_eq!(r.key, "k");
    assert_eq!(r.body, vec![7, 8]);
    assert_eq!(r.content_type.as_deref(), Some("t"));
    assert_eq!(r.metadata, vec![("a".to_string(), "b".to_string())]);
}

#[test]
fn built_clients_carry_the_region() {
    let mut c = sample();
    c.region = s("eu-west");
    let built = build_r2_client(&c).unwrap();
    assert_eq!(built.config().region().map(|r| r.as_ref()), Some("eu-west"));
    let created = create_client(&c).unwrap();
    assert_eq!(created.config().region().map(|r| r.as_ref()), Some("auto"));
}
