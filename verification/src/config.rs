//! Backing-store configuration: each setting comes from the command line if
//! given, else from the environment, else from a default; the two
//! credentials must end up non-empty.

use vstd::prelude::*;
use crate::cli::Cli;

verus! {

/// Connection settings for the backing store.
#[derive(Debug)]
pub struct StorageConfig {
    pub bucket: String,
    pub region: String,
    pub access_key: String,
    pub secret_key: String,
    pub endpoint: Option<String>,
    pub max_size: u64,
}

/// The environment's contribution, read by the surrounding program before
/// the library resolves the configuration.
#[derive(Debug)]
pub struct EnvSettings {
    pub bucket: Option<String>,
    pub region: Option<String>,
    pub access_key: Option<String>,
    pub secret_key: Option<String>,
    pub url: Option<String>,
}

/// Why the configuration was refused.
#[derive(Clone, Copy, PartialEq, Eq, Structural, Debug)]
pub enum ConfigError {
    MissingCredentials,
}

impl ConfigError {
    pub fn message(&self) -> (r: String)
        ensures
            r@ == "Access key and secret key must be provided via parameters or environment variables"@,
    {
        "Access key and secret key must be provided via parameters or environment variables".to_owned()
    }
}

/// Which value a setting resolves to: command line first, then environment,
/// then the default.
pub open spec fn setting_spec(
    cli_value: Option<String>,
    env_value: Option<String>,
    default: Seq<char>,
) -> Seq<char> {
    match cli_value {
        Some(v) => v@,
        None => match env_value {
            Some(v) => v@,
            None => default,
        },
    }
}

fn resolve_setting(cli_value: &Option<String>, env_value: Option<String>, default: &str) -> (r:
    String)
    ensures
        r@ == setting_spec(*cli_value, env_value, default@),
{
    match cli_value {
        Some(v) => v.clone(),
        None => match env_value {
            Some(v) => v,
            None => default.to_owned(),
        },
    }
}

fn clone_opt(o: &Option<String>) -> (r: Option<String>)
    ensures
        r == *o,
{
    match o {
        Some(v) => Some(v.clone()),
        None => None,
    }
}

impl StorageConfig {
    /// Whether a file of `size` bytes may be uploaded under this
    /// configuration.
    pub fn allows_size(&self, size: u64) -> (r: bool)
        ensures
            r == (size <= self.max_size),
    {
        size <= self.max_size
    }

    /// Resolves the configuration from the command line and the
    /// environment's values. Fails exactly when the resolved access key or
    /// secret key is empty.
    pub fn load_from_cli(cli: &Cli, env: &EnvSettings) -> (r: Result<StorageConfig, ConfigError>)
        ensures
            r is Err <==> setting_spec(cli.access_key, env.access_key, ""@).len() == 0
                || setting_spec(cli.secret_key, env.secret_key, ""@).len() == 0,
            r matches Ok(c) ==> {
                &&& c.bucket@ == setting_spec(cli.bucket, env.bucket, "default-bucket"@)
                &&& c.region@ == setting_spec(cli.region, env.region, "us-east-1"@)
                &&& c.access_key@ == setting_spec(cli.access_key, env.access_key, ""@)
                &&& c.secret_key@ == setting_spec(cli.secret_key, env.secret_key, ""@)
                &&& (cli.endpoint matches Some(e) ==> c.endpoint matches Some(ce) && ce == e)
                &&& (cli.endpoint is None ==> c.endpoint == env.url)
                &&& c.max_size == cli.max_size
            },
    {
        let bucket = resolve_setting(&cli.bucket, clone_opt(&env.bucket), "default-bucket");
        let region = resolve_setting(&cli.region, clone_opt(&env.region), "us-east-1");
        let access_key = resolve_setting(&cli.access_key, clone_opt(&env.access_key), "");
        let secret_key = resolve_setting(&cli.secret_key, clone_opt(&env.secret_key), "");
        let endpoint = match &cli.endpoint {
            Some(e) => Some(e.clone()),
            None => clone_opt(&env.url),
        };
        proof {
            reveal_strlit("");
        }
        if access_key.as_str().is_empty() || secret_key.as_str().is_empty() {
            return Err(ConfigError::MissingCredentials);
        }
        Ok(
            StorageConfig {
                bucket,
                region,
                access_key,
                secret_key,
                endpoint,
                max_size: cli.max_size,
            },
        )
    }
}

} // verus!
