//! The object-store client: the settings it is built from, and the write
//! requests it is given.
use vstd::prelude::*;
use vstd::string::*;
use crate::config::{ConfigField, R2Config, default_region, endpoint_for};
use aws_sdk_s3::Client;

verus! {

#[verifier::external_type_specification]
#[verifier::external_body]
pub struct ExClient(aws_sdk_s3::Client);

/// The client could not be built: a setting it needs is empty.
#[derive(Debug, Clone, Copy, PartialEq, Eq, Structural)]
pub enum ClientError {
    Invalid(ConfigField),
}

/// What a client is built from.
#[derive(Debug)]
pub struct ClientSettings {
    pub region: String,
    pub endpoint: String,
    pub access_key: String,
    pub secret_key: String,
}

/// The region a client uses: the configured one where overrides are honoured
/// and one is set, else `auto`.
pub open spec fn region_of(c: R2Config, overrides: bool) -> Seq<char> {
    if overrides && c.region is Some {
        c.region->0@
    } else {
        default_region()
    }
}

/// The endpoint a client uses: the override where overrides are honoured and
/// one is set, else the account's endpoint.
pub open spec fn endpoint_of(c: R2Config, overrides: bool) -> Seq<char> {
    if overrides && c.endpoint_override is Some {
        c.endpoint_override->0@
    } else {
        endpoint_for(c.account_id@)
    }
}

/// The first setting that is empty, if any. An endpoint override is passed on
/// as it is given.
pub open spec fn settings_problem(c: R2Config, overrides: bool) -> Option<ConfigField> {
    if c.account_id@.len() == 0 {
        Some(ConfigField::AccountId)
    } else if c.access_key@.len() == 0 {
        Some(ConfigField::AccessKey)
    } else if c.secret_key@.len() == 0 {
        Some(ConfigField::SecretKey)
    } else if c.bucket@.len() == 0 {
        Some(ConfigField::Bucket)
    } else if region_of(c, overrides).len() == 0 {
        Some(ConfigField::Region)
    } else {
        None
    }
}

pub open spec fn settings_match(
    r: Result<ClientSettings, ClientError>,
    c: R2Config,
    overrides: bool,
) -> bool {
    match settings_problem(c, overrides) {
        Some(f) => r == Err::<ClientSettings, ClientError>(ClientError::Invalid(f)),
        None => {
            &&& r is Ok
            &&& r->Ok_0.region@ == region_of(c, overrides)
            &&& r->Ok_0.endpoint@ == endpoint_of(c, overrides)
            &&& r->Ok_0.access_key@ == c.access_key@
            &&& r->Ok_0.secret_key@ == c.secret_key@
        },
    }
}

fn non_empty(s: &String) -> (r: bool)
    ensures
        r == (s@.len() > 0),
{
    !s.as_str().is_empty()
}

impl ClientSettings {
    /// The settings for a configuration; `overrides` says whether its region
    /// and endpoint override are honoured.
    pub fn from_config(c: &R2Config, overrides: bool) -> (r: Result<ClientSettings, ClientError>)
        ensures
            settings_match(r, *c, overrides),
    {
        if !non_empty(&c.account_id) {
            return Err(ClientError::Invalid(ConfigField::AccountId));
        }
        if !non_empty(&c.access_key) {
            return Err(ClientError::Invalid(ConfigField::AccessKey));
        }
        if !non_empty(&c.secret_key) {
            return Err(ClientError::Invalid(ConfigField::SecretKey));
        }
        if !non_empty(&c.bucket) {
            return Err(ClientError::Invalid(ConfigField::Bucket));
        }
        proof {
            reveal_strlit("auto");
        }
        let region = match (&c.region, overrides) {
            (Some(r), true) => r.clone(),
            _ => String::from_str("auto"),
        };
        if !non_empty(&region) {
            return Err(ClientError::Invalid(ConfigField::Region));
        }
        let endpoint = match (&c.endpoint_override, overrides) {
            (Some(e), true) => e.clone(),
            _ => c.endpoint_url(),
        };
        Ok(
            ClientSettings {
                region,
                endpoint,
                access_key: c.access_key.clone(),
                secret_key: c.secret_key.clone(),
            },
        )
    }
}

/// The endpoint a client was configured with.
pub uninterp spec fn client_endpoint(c: Client) -> Seq<char>;

/// The region a client was configured with.
pub uninterp spec fn client_region(c: Client) -> Seq<char>;

/// The access key of the static credentials a client was configured with.
pub uninterp spec fn client_access_key(c: Client) -> Seq<char>;

/// The secret key of the static credentials a client was configured with.
pub uninterp spec fn client_secret_key(c: Client) -> Seq<char>;

/// The client is configured from these settings of a configuration.
pub open spec fn client_for(cl: Client, c: R2Config, overrides: bool) -> bool {
    &&& client_endpoint(cl) == endpoint_of(c, overrides)
    &&& client_region(cl) == region_of(c, overrides)
    &&& client_access_key(cl) == c.access_key@
    &&& client_secret_key(cl) == c.secret_key@
}

/// Relies on `aws_sdk_s3::Client::from_conf`, given a `Config` built with
/// `Region::new`, `endpoint_url` and `Credentials::new` from these settings.
/// Building makes no network access; `from_conf` panics only without a
/// behavior version (set here) or without the sleep and time sources that the
/// crate's default Tokio runtime supplies.
#[verifier::external_body]
fn client_from_settings(s: ClientSettings) -> (r: Client)
    ensures
        client_endpoint(r) == s.endpoint@,
        client_region(r) == s.region@,
        client_access_key(r) == s.access_key@,
        client_secret_key(r) == s.secret_key@,
{
    let conf = aws_sdk_s3::Config::builder()
        .behavior_version_latest()
        .region(aws_types::region::Region::new(s.region))
        .endpoint_url(s.endpoint)
        .credentials_provider(
            aws_sdk_s3::config::Credentials::new(s.access_key, s.secret_key, None, None, "r2"),
        )
        .build();
    Client::from_conf(conf)
}

/// Builds a client for the account's endpoint in region `auto`.
pub fn create_client(config: &R2Config) -> (r: Result<Client, ClientError>)
    ensures
        r is Ok <==> settings_problem(*config, false) is None,
        r is Err ==> r == Err::<Client, ClientError>(
            ClientError::Invalid(settings_problem(*config, false)->0),
        ),
        r is Ok ==> client_for(r->Ok_0, *config, false),
{
    match ClientSettings::from_config(config, false) {
        Ok(s) => Ok(client_from_settings(s)),
        Err(e) => Err(e),
    }
}

/// Builds a client that honours the configured region and endpoint override.
pub fn build_r2_client(cfg: &R2Config) -> (r: Result<Client, ClientError>)
    ensures
        r is Ok <==> settings_problem(*cfg, true) is None,
        r is Err ==> r == Err::<Client, ClientError>(
            ClientError::Invalid(settings_problem(*cfg, true)->0),
        ),
        r is Ok ==> client_for(r->Ok_0, *cfg, true),
{
    match ClientSettings::from_config(cfg, true) {
        Ok(s) => Ok(client_from_settings(s)),
        Err(e) => Err(e),
    }
}

/// A write failed: the request broke a rule of the store, or the backend or
/// the transport rejected it.
#[derive(Debug, Clone, PartialEq, Eq)]
pub enum WriteError {
    EmptyKey,
    EmptyBody,
    Backend(String),
}

/// One object write: where it goes, its bytes, their content type and the
/// metadata stored beside them.
#[derive(Debug)]
pub struct PutObjectRequest {
    pub bucket: String,
    pub key: String,
    pub body: Vec<u8>,
    pub content_type: Option<String>,
    pub metadata: Vec<(String, String)>,
}

impl PutObjectRequest {
    /// The key and the body are non-empty.
    pub open spec fn wf(&self) -> bool {
        self.key@.len() > 0 && self.body@.len() > 0
    }

    /// Checks a write before it is sent: an empty key, then an empty body, is
    /// rejected; otherwise the request holds exactly what was given.
    pub fn new(
        bucket: String,
        key: String,
        body: Vec<u8>,
        content_type: Option<String>,
        metadata: Vec<(String, String)>,
    ) -> (r: Result<PutObjectRequest, WriteError>)
        ensures
            key@.len() == 0 ==> r == Err::<PutObjectRequest, WriteError>(WriteError::EmptyKey),
            key@.len() > 0 && body@.len() == 0 ==> r == Err::<PutObjectRequest, WriteError>(
                WriteError::EmptyBody,
            ),
            key@.len() > 0 && body@.len() > 0 ==> r == Ok::<PutObjectRequest, WriteError>(
                PutObjectRequest { bucket, key, body, content_type, metadata },
            ),
    {
        if !non_empty(&key) {
            Err(WriteError::EmptyKey)
        } else if body.len() == 0 {
            Err(WriteError::EmptyBody)
        } else {
            Ok(PutObjectRequest { bucket, key, body, content_type, metadata })
        }
    }
}

} // verus!
