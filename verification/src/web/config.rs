//! Settings of the web front end.

pub use crate::config::{string_to_ip, Level, LoggingConfig, NetworkConfig, TlsConfig, Verbosity};
use vstd::prelude::*;

verus! {

/// What is served, and where the API server is.
#[derive(Debug, Clone, PartialEq, Eq)]
pub struct SiteConfig {
    /// Path of the directory with the static files.
    pub root: Option<String>,
    pub api_base_url: Option<String>,
}

/// The settings of the web front end.
#[derive(Debug, Clone, PartialEq, Eq)]
pub struct Config {
    pub site: SiteConfig,
    pub tls: TlsConfig,
    pub network: NetworkConfig,
    pub logging: LoggingConfig,
}

impl Config {
    /// What is served and where the API server is.
    pub fn site(&self) -> (r: &SiteConfig)
        ensures
            *r == self.site,
    {
        &self.site
    }

    /// The TLS settings.
    pub fn tls(&self) -> (r: &TlsConfig)
        ensures
            *r == self.tls,
    {
        &self.tls
    }

    /// The address to listen on.
    pub fn network(&self) -> (r: &NetworkConfig)
        ensures
            *r == self.network,
    {
        &self.network
    }

    /// The logging settings.
    pub fn logging(&self) -> (r: &LoggingConfig)
        ensures
            *r == self.logging,
    {
        &self.logging
    }

    /// The settings written out where no file is found: the files under
    /// `static`, the API server on this machine, no TLS, every address on
    /// port 8080, level `INFO`.
    pub fn default() -> (r: Self)
        ensures
            r.site.root matches Some(root) && root@ == "static"@,
            r.site.api_base_url matches Some(url) && url@ == "http://localhost:8081"@,
            r.tls.cert is None,
            r.tls.key is None,
            !r.tls.enable,
            r.network.ip@ == "0.0.0.0"@,
            r.network.port == 8080,
            r.logging.level@ == "INFO"@,
    {
        Config {
            site: SiteConfig {
                root: Some("static".to_owned()),
                api_base_url: Some("http://localhost:8081".to_owned()),
            },
            tls: TlsConfig::off(),
            network: NetworkConfig { ip: "0.0.0.0".to_owned(), port: 8080 },
            logging: LoggingConfig { level: "INFO".to_owned() },
        }
    }
}

} // verus!
