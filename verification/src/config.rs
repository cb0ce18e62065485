//! Service configuration and its defaults.

use crate::text::{find, lookup, pairs_view, parse_bounded, parse_unsigned, same_text};
use vstd::prelude::*;

verus! {

/// Settings of the service.
#[derive(Debug, Clone, PartialEq, Eq)]
pub struct Config {
    pub host: String,
    pub port: u16,
    pub minio_endpoint: String,
    pub minio_access_key: String,
    pub minio_secret_key: String,
    pub minio_bucket: String,
    pub minio_use_ssl: bool,
    pub redis_url: String,
    pub model_path: String,
}

/// A configuration by the characters of its texts.
pub struct ConfigView {
    pub host: Seq<char>,
    pub port: u16,
    pub minio_endpoint: Seq<char>,
    pub minio_access_key: Seq<char>,
    pub minio_secret_key: Seq<char>,
    pub minio_bucket: Seq<char>,
    pub minio_use_ssl: bool,
    pub redis_url: Seq<char>,
    pub model_path: Seq<char>,
}

impl View for Config {
    type V = ConfigView;

    open spec fn view(&self) -> ConfigView {
        ConfigView {
            host: self.host@,
            port: self.port,
            minio_endpoint: self.minio_endpoint@,
            minio_access_key: self.minio_access_key@,
            minio_secret_key: self.minio_secret_key@,
            minio_bucket: self.minio_bucket@,
            minio_use_ssl: self.minio_use_ssl,
            redis_url: self.redis_url@,
            model_path: self.model_path@,
        }
    }
}

/// The value of the variable `name`, or `fallback` when it is not set.
pub open spec fn text_setting(
    vars: Seq<(Seq<char>, Seq<char>)>,
    name: Seq<char>,
    fallback: Seq<char>,
) -> Seq<char> {
    match lookup(vars, name) {
        Some(v) => v,
        None => fallback,
    }
}

/// The listening port: the variable `PORT` where it is set to a decimal
/// number that fits sixteen bits, else 8000.
pub open spec fn port_setting(vars: Seq<(Seq<char>, Seq<char>)>) -> u16 {
    match lookup(vars, "PORT"@) {
        Some(v) => match parse_unsigned(v, 65535) {
            Some(p) => p as u16,
            None => 8000,
        },
        None => 8000,
    }
}

/// Whether blob storage is reached over TLS: only when `MINIO_USE_SSL` is
/// exactly `true` or `1`.
pub open spec fn ssl_setting(vars: Seq<(Seq<char>, Seq<char>)>) -> bool {
    match lookup(vars, "MINIO_USE_SSL"@) {
        Some(v) => v == "true"@ || v == "1"@,
        None => false,
    }
}

/// The configuration that a set of environment variables describes.
pub open spec fn config_of(vars: Seq<(Seq<char>, Seq<char>)>) -> ConfigView {
    ConfigView {
        host: text_setting(vars, "HOST"@, "0.0.0.0"@),
        port: port_setting(vars),
        minio_endpoint: text_setting(vars, "MINIO_ENDPOINT"@, "minio:9000"@),
        minio_access_key: text_setting(vars, "MINIO_ACCESS_KEY"@, "minioadmin"@),
        minio_secret_key: text_setting(vars, "MINIO_SECRET_KEY"@, "minioadmin123"@),
        minio_bucket: text_setting(vars, "MINIO_BUCKET"@, "recordings"@),
        minio_use_ssl: ssl_setting(vars),
        redis_url: text_setting(vars, "REDIS_URL"@, "redis://redis:6379"@),
        model_path: text_setting(vars, "MODEL_PATH"@, "./models/parakeet-v3"@),
    }
}

fn text_or(vars: &Vec<(String, String)>, name: &str, fallback: &str) -> (r: String)
    ensures
        r@ == text_setting(pairs_view(vars@), name@, fallback@),
{
    match find(vars, name) {
        Some(v) => v.clone(),
        None => String::from_str(fallback),
    }
}

impl Config {
    /// Builds the configuration from the environment's variables, given as
    /// pairs of name and value.  A variable that is absent takes its default;
    /// so does a port that is not a number.
    pub fn from_env(vars: &Vec<(String, String)>) -> (r: Config)
        ensures
            r@ == config_of(pairs_view(vars@)),
    {
        let port: u16 = match find(vars, "PORT") {
            Some(v) => match parse_bounded(v.as_str(), 65535) {
                Some(p) => p as u16,
                None => 8000,
            },
            None => 8000,
        };
        let minio_use_ssl = match find(vars, "MINIO_USE_SSL") {
            Some(v) => same_text(v.as_str(), "true") || same_text(v.as_str(), "1"),
            None => false,
        };
        Config {
            host: text_or(vars, "HOST", "0.0.0.0"),
            port,
            minio_endpoint: text_or(vars, "MINIO_ENDPOINT", "minio:9000"),
            minio_access_key: text_or(vars, "MINIO_ACCESS_KEY", "minioadmin"),
            minio_secret_key: text_or(vars, "MINIO_SECRET_KEY", "minioadmin123"),
            minio_bucket: text_or(vars, "MINIO_BUCKET", "recordings"),
            minio_use_ssl,
            redis_url: text_or(vars, "REDIS_URL", "redis://redis:6379"),
            model_path: text_or(vars, "MODEL_PATH", "./models/parakeet-v3"),
        }
    }
}

} // verus!
