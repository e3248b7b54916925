//! Service configuration: defaults for unset values and validation.
use vstd::prelude::*;
use crate::text::{same_text, seq_starts_with, starts_with_str};

verus! {

/// Endpoints, credentials and verbosity of the service.
#[derive(Clone, Debug)]
pub struct Config {
    pub solana_rpc_url: String,
    pub ethereum_rpc_url: String,
    pub api_key: String,
    pub log_level: String,
}

/// The first check that a configuration fails.
#[derive(Clone, Copy, Debug, PartialEq, Eq, Structural)]
pub enum ConfigError {
    InvalidSolanaUrl,
    InvalidEthereumUrl,
    MissingApiKey,
    InvalidLogLevel,
}

/// A log level that the configuration accepts.
pub open spec fn known_log_level(s: Seq<char>) -> bool {
    s == "info"@ || s == "debug"@ || s == "warn"@ || s == "error"@
}

/// The first check that `c` fails, in order: both URLs start with "http", the
/// API key is not empty, the log level is known.
pub open spec fn config_problem(c: Config) -> Option<ConfigError> {
    if !seq_starts_with(c.solana_rpc_url@, "http"@) {
        Some(ConfigError::InvalidSolanaUrl)
    } else if !seq_starts_with(c.ethereum_rpc_url@, "http"@) {
        Some(ConfigError::InvalidEthereumUrl)
    } else if c.api_key@.len() == 0 {
        Some(ConfigError::MissingApiKey)
    } else if !known_log_level(c.log_level@) {
        Some(ConfigError::InvalidLogLevel)
    } else {
        None
    }
}

/// A given value, or the default when it is unset.
pub open spec fn or_default(v: Option<String>, default: Seq<char>) -> Seq<char> {
    match v {
        Some(s) => s@,
        None => default,
    }
}

/// The given value, or the default text when it is unset.
fn value_or(v: Option<String>, default: &str) -> (r: String)
    ensures
        r@ == or_default(v, default@),
{
    match v {
        Some(s) => s,
        None => String::from_str(default),
    }
}

impl ConfigError {
    /// A human-readable description of the error.
    pub fn message(&self) -> (r: String)
        ensures
            *self == ConfigError::InvalidSolanaUrl ==> r@ == "Invalid Solana RPC URL."@,
            *self == ConfigError::InvalidEthereumUrl ==> r@ == "Invalid Ethereum RPC URL."@,
            *self == ConfigError::MissingApiKey ==> r@ == "API key is missing."@,
            *self == ConfigError::InvalidLogLevel ==> r@ == "Invalid log level."@,
    {
        match self {
            ConfigError::InvalidSolanaUrl => String::from_str("Invalid Solana RPC URL."),
            ConfigError::InvalidEthereumUrl => String::from_str("Invalid Ethereum RPC URL."),
            ConfigError::MissingApiKey => String::from_str("API key is missing."),
            ConfigError::InvalidLogLevel => String::from_str("Invalid log level."),
        }
    }
}

impl Config {
    /// A configuration from the given values, with a default for each unset one.
    pub fn with_defaults(
        solana_rpc_url: Option<String>,
        ethereum_rpc_url: Option<String>,
        api_key: Option<String>,
        log_level: Option<String>,
    ) -> (r: Config)
        ensures
            r.solana_rpc_url@ == or_default(solana_rpc_url, "https://api.mainnet-beta.solana.com"@),
            r.ethereum_rpc_url@ == or_default(
                ethereum_rpc_url,
                "https://mainnet.infura.io/v3/your-project-id"@,
            ),
            r.api_key@ == or_default(api_key, "your-api-key"@),
            r.log_level@ == or_default(log_level, "info"@),
    {
        Config {
            solana_rpc_url: value_or(solana_rpc_url, "https://api.mainnet-beta.solana.com"),
            ethereum_rpc_url: value_or(
                ethereum_rpc_url,
                "https://mainnet.infura.io/v3/your-project-id",
            ),
            api_key: value_or(api_key, "your-api-key"),
            log_level: value_or(log_level, "info"),
        }
    }

    /// Checks the configuration and reports the first problem found.
    pub fn validate(&self) -> (r: Result<(), ConfigError>)
        ensures
            r.is_ok() <==> config_problem(*self).is_none(),
            match r {
                Ok(_) => true,
                Err(e) => config_problem(*self) == Some(e),
            },
    {
        if !starts_with_str(self.solana_rpc_url.as_str(), "http") {
            return Err(ConfigError::InvalidSolanaUrl);
        }
        if !starts_with_str(self.ethereum_rpc_url.as_str(), "http") {
            return Err(ConfigError::InvalidEthereumUrl);
        }
        if self.api_key.as_str().unicode_len() == 0 {
            return Err(ConfigError::MissingApiKey);
        }
        let level = self.log_level.as_str();
        if !(same_text(level, "info") || same_text(level, "debug") || same_text(level, "warn")
            || same_text(level, "error")) {
            return Err(ConfigError::InvalidLogLevel);
        }
        Ok(())
    }
}

/// Builds the configuration from the given values and their defaults, and
/// validates it.
pub fn load_config(
    solana_rpc_url: Option<String>,
    ethereum_rpc_url: Option<String>,
    api_key: Option<String>,
    log_level: Option<String>,
) -> (r: Result<Config, ConfigError>)
    ensures
        match r {
            Ok(c) => config_problem(c).is_none() && c.solana_rpc_url@ == or_default(
                solana_rpc_url,
                "https://api.mainnet-beta.solana.com"@,
            ) && c.ethereum_rpc_url@ == or_default(
                ethereum_rpc_url,
                "https://mainnet.infura.io/v3/your-project-id"@,
            ) && c.api_key@ == or_default(api_key, "your-api-key"@) && c.log_level@ == or_default(
                log_level,
                "info"@,
            ),
            Err(e) => exists|c: Config|
                c.solana_rpc_url@ == or_default(solana_rpc_url, "https://api.mainnet-beta.solana.com"@)
                    && c.ethereum_rpc_url@ == or_default(
                    ethereum_rpc_url,
                    "https://mainnet.infura.io/v3/your-project-id"@,
                ) && c.api_key@ == or_default(api_key, "your-api-key"@) && c.log_level@
                    == or_default(log_level, "info"@) && #[trigger] config_problem(c) == Some(e),
        },
{
    let config = Config::with_defaults(solana_rpc_url, ethereum_rpc_url, api_key, log_level);
    match config.validate() {
        Ok(()) => Ok(config),
        Err(e) => Err(e),
    }
}

} // verus!
