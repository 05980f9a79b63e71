//! The sidecar as a whole: what it starts and how often it refreshes.

use vstd::prelude::*;
use crate::sidecar::cache::CACHE_TTL_SECONDS;
use crate::sidecar::config::{OtoroshiSidecarConfig, OtoroshiSidecarConfigModel};
use crate::utils::http::HttpContentKind;
use crate::utils::text::{ends_with, is_prefix, is_suffix, starts_with};

verus! {

/// Seconds between two refreshes of the cache.
pub const REFRESH_PERIOD_SECONDS: i64 = 60;

/// Seconds after which a change on the control plane has reached the
/// sidecar at the latest: a refresh period and the time to live of the
/// cache.
pub const STALENESS_BOUND_SECONDS: i64 = REFRESH_PERIOD_SECONDS + CACHE_TTL_SECONDS;

/// How the inbound listener serves.
#[derive(Debug, Clone, Copy, PartialEq, Eq, Structural)]
pub enum InboundMode {
    Http,
    Https,
}

/// Where a configuration document is read from.
#[derive(Debug, Clone, Copy, PartialEq, Eq, Structural)]
pub enum ConfigSource {
    Url,
    File,
}

/// The inbound listener serves TLS exactly where the settings have a
/// certificate that is switched on.
pub open spec fn inbound_mode_of(config: OtoroshiSidecarConfigModel) -> InboundMode {
    match config.spec.inbound.tls {
        Some(t) => if t.enabled {
            InboundMode::Https
        } else {
            InboundMode::Http
        },
        None => InboundMode::Http,
    }
}

/// A path that starts like a web address is fetched, any other is read as
/// a file.
pub open spec fn source_of(path: Seq<char>) -> ConfigSource {
    if is_prefix(path, "http://"@) || is_prefix(path, "https://"@) {
        ConfigSource::Url
    } else {
        ConfigSource::File
    }
}

/// A file called `.json` holds JSON, any other YAML.
pub open spec fn file_format_of(path: Seq<char>) -> HttpContentKind {
    if is_suffix(path, ".json"@) {
        HttpContentKind::JSON
    } else {
        HttpContentKind::YAML
    }
}

/// The sidecar.
pub struct Sidecar {}

impl Sidecar {
    /// How the inbound listener serves.
    pub fn inbound_mode(config: &OtoroshiSidecarConfig) -> (res: InboundMode)
        ensures
            res == inbound_mode_of(config.deep_view()),
    {
        match &config.spec.inbound.tls {
            Some(t) => if t.enabled {
                InboundMode::Https
            } else {
                InboundMode::Http
            },
            None => InboundMode::Http,
        }
    }

    /// Where the configuration document at `path` is read from.
    pub fn config_source(path: &str) -> (res: ConfigSource)
        ensures
            res == source_of(path@),
    {
        if starts_with(path, "http://") || starts_with(path, "https://") {
            ConfigSource::Url
        } else {
            ConfigSource::File
        }
    }

    /// The format of the configuration file at `path`.
    pub fn file_format(path: &str) -> (res: HttpContentKind)
        ensures
            res == file_format_of(path@),
    {
        if ends_with(path, ".json") {
            HttpContentKind::JSON
        } else {
            HttpContentKind::YAML
        }
    }
}

} // verus!
