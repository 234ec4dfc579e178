//! Storage configuration: account, credentials, bucket and endpoint.
use vstd::prelude::*;
use vstd::string::*;

verus! {

/// A required configuration value.
#[derive(Debug, Clone, Copy, PartialEq, Eq, Structural)]
pub enum ConfigField {
    AccountId,
    AccessKey,
    SecretKey,
    Bucket,
    Region,
}

/// A required configuration value was absent or empty.
#[derive(Debug, Clone, Copy, PartialEq, Eq, Structural)]
pub enum ConfigError {
    Missing(ConfigField),
}

/// Account, credentials and bucket of the remote object store.
#[derive(Debug, Clone)]
pub struct R2Config {
    pub account_id: String,
    pub access_key: String,
    pub secret_key: String,
    pub bucket: String,
    pub region: Option<String>,
    pub endpoint_override: Option<String>,
}

/// A supplied value counts as present when it is there and not empty.
pub open spec fn present(v: Option<String>) -> bool {
    v is Some && v->0@.len() > 0
}

/// The first of the four required values that is absent, in their fixed order.
pub open spec fn first_missing(
    account_id: Option<String>,
    access_key: Option<String>,
    secret_key: Option<String>,
    bucket: Option<String>,
) -> Option<ConfigField> {
    if !present(account_id) {
        Some(ConfigField::AccountId)
    } else if !present(access_key) {
        Some(ConfigField::AccessKey)
    } else if !present(secret_key) {
        Some(ConfigField::SecretKey)
    } else if !present(bucket) {
        Some(ConfigField::Bucket)
    } else {
        None
    }
}

/// The service endpoint of an account: `https://<account>.r2.cloudflarestorage.com`.
pub open spec fn endpoint_for(account_id: Seq<char>) -> Seq<char> {
    "https://"@ + account_id + ".r2.cloudflarestorage.com"@
}

/// The region used when none is configured.
pub open spec fn default_region() -> Seq<char> {
    "auto"@
}

fn is_present(v: &Option<String>) -> (r: bool)
    ensures
        r == present(*v),
{
    match v {
        Some(s) => !s.as_str().is_empty(),
        None => false,
    }
}

impl R2Config {
    /// All four required values are non-empty.
    pub open spec fn is_complete(&self) -> bool {
        &&& self.account_id@.len() > 0
        &&& self.access_key@.len() > 0
        &&& self.secret_key@.len() > 0
        &&& self.bucket@.len() > 0
    }

    /// Builds the configuration from the four required values as they were
    /// looked up; the region is `auto` and no endpoint override is set.
    pub fn from_values(
        account_id: Option<String>,
        access_key: Option<String>,
        secret_key: Option<String>,
        bucket: Option<String>,
    ) -> (r: Result<R2Config, ConfigError>)
        ensures
            r is Ok <==> first_missing(account_id, access_key, secret_key, bucket) is None,
            r is Err ==> r == Err::<R2Config, ConfigError>(
                ConfigError::Missing(first_missing(account_id, access_key, secret_key, bucket)->0),
            ),
            r is Ok ==> {
                let c = r->Ok_0;
                &&& c.account_id@ == account_id->0@
                &&& c.access_key@ == access_key->0@
                &&& c.secret_key@ == secret_key->0@
                &&& c.bucket@ == bucket->0@
                &&& c.region is Some && c.region->0@ == default_region()
                &&& c.endpoint_override is None
                &&& c.is_complete()
            },
    {
        if !is_present(&account_id) {
            return Err(ConfigError::Missing(ConfigField::AccountId));
        }
        if !is_present(&access_key) {
            return Err(ConfigError::Missing(ConfigField::AccessKey));
        }
        if !is_present(&secret_key) {
            return Err(ConfigError::Missing(ConfigField::SecretKey));
        }
        if !is_present(&bucket) {
            return Err(ConfigError::Missing(ConfigField::Bucket));
        }
        proof {
            reveal_strlit("auto");
        }
        Ok(R2Config {
            account_id: account_id.unwrap(),
            access_key: access_key.unwrap(),
            secret_key: secret_key.unwrap(),
            bucket: bucket.unwrap(),
            region: Some(String::from_str("auto")),
            endpoint_override: None,
        })
    }

    /// The service endpoint derived from the account id alone.
    pub fn endpoint_url(&self) -> (r: String)
        ensures
            r@ == endpoint_for(self.account_id@),
    {
        let mut url = String::from_str("https://");
        url.append(self.account_id.as_str());
        url.append(".r2.cloudflarestorage.com");
        url
    }
}

} // verus!
