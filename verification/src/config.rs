//! The settings of the updater: which record to keep current, how to talk
//! to the provider, and how often to look.
//!
//! A setting that a configuration leaves out takes its default.

use crate::time::Time;
use vstd::prelude::*;

verus! {

/// Retries of a request that are made by default.
pub const DEFAULT_MAX_RETRIES: u8 = 5;

/// Seconds that a request may take, and that lie between two tries, by
/// default.
pub const DEFAULT_TIMEOUT_SECS: u64 = 30;

/// Seconds between two looks at the address by default.
pub const DEFAULT_INTERVAL_SECS: u64 = 3600;

/// Errors that are shown before the updater gives up, by default.
pub const DEFAULT_MAX_ERRORS: u8 = 5;

/// Why a zone cannot be configured.
#[derive(Clone, Copy, Debug, PartialEq, Eq, Structural)]
pub enum ZoneError {
    /// The record's name is no domain name.
    InvalidDomain,
}

/// What `idna::domain_to_ascii` makes of a domain name: its ASCII form,
/// or `None` where the name is refused.
pub uninterp spec fn spec_domain_to_ascii(domain: Seq<char>) -> Option<Seq<char>>;

/// `idna::domain_to_ascii`: the ASCII form of `domain`.
#[verifier::external_body]
fn domain_to_ascii(domain: &str) -> (ascii: Option<String>)
    ensures
        ascii is Some <==> spec_domain_to_ascii(domain@) is Some,
        ascii is Some ==> ascii->0@ == spec_domain_to_ascii(domain@)->0,
{
    idna::domain_to_ascii(domain).ok()
}

/// The record that is kept current.
#[derive(Debug, PartialEq, Eq, PartialOrd, Ord)]
pub struct Zone {
    id: String,
    record: String,
    proxied: bool,
}

/// A zone as a mathematical value.
pub ghost struct ZoneModel {
    pub id: Seq<char>,
    pub record: Seq<char>,
    pub proxied: bool,
}

impl View for Zone {
    type V = ZoneModel;

    closed spec fn view(&self) -> ZoneModel {
        ZoneModel { id: self.id@, record: self.record@, proxied: self.proxied }
    }
}

impl Zone {
    /// A zone whose record's name is given in its ASCII form already, or
    /// was refused (`None`).
    pub fn from_ascii(id: String, ascii: Option<String>, proxied: bool) -> (out: Result<
        Zone,
        ZoneError,
    >)
        ensures
            match (ascii, out) {
                (None, Err(e)) => e == ZoneError::InvalidDomain,
                (Some(name), Ok(zone)) => zone@ == (ZoneModel {
                    id: id@,
                    record: name@,
                    proxied,
                }),
                _ => false,
            },
    {
        match ascii {
            None => Err(ZoneError::InvalidDomain),
            Some(record) => Ok(Zone { id, record, proxied }),
        }
    }

    /// A zone for the record `record`, whose name is brought into its
    /// ASCII form.
    pub fn new(id: String, record: &str, proxied: bool) -> (out: Result<Zone, ZoneError>)
        ensures
            match (spec_domain_to_ascii(record@), out) {
                (None, Err(e)) => e == ZoneError::InvalidDomain,
                (Some(name), Ok(zone)) => zone@ == (ZoneModel { id: id@, record: name, proxied }),
                _ => false,
            },
    {
        let ascii = domain_to_ascii(record);
        Zone::from_ascii(id, ascii, proxied)
    }

    /// The provider's name for the zone.
    pub fn id(&self) -> (id: &str)
        ensures
            id@ == self@.id,
    {
        self.id.as_str()
    }

    /// The record's name, in ASCII.
    pub fn record(&self) -> (record: &str)
        ensures
            record@ == self@.record,
    {
        self.record.as_str()
    }

    /// Whether the provider stands between the record and its readers.
    pub fn proxied(&self) -> (proxied: bool)
        ensures
            proxied == self@.proxied,
    {
        self.proxied
    }
}

/// How requests to the provider are made.
#[derive(Debug, PartialEq, Eq, PartialOrd, Ord)]
pub struct ClientConfig {
    max_retries: u8,
    retry_interval: Time,
    timeout: Time,
    max_idle_per_host: usize,
}

/// A client configuration as a mathematical value.
pub ghost struct ClientModel {
    pub max_retries: u8,
    pub retry_interval: Time,
    pub timeout: Time,
    pub max_idle_per_host: usize,
}

impl View for ClientConfig {
    type V = ClientModel;

    closed spec fn view(&self) -> ClientModel {
        ClientModel {
            max_retries: self.max_retries,
            retry_interval: self.retry_interval,
            timeout: self.timeout,
            max_idle_per_host: self.max_idle_per_host,
        }
    }
}

impl ClientConfig {
    /// The retries that are made where none are configured.
    pub fn default_max_retries() -> (n: u8)
        ensures
            n == DEFAULT_MAX_RETRIES,
    {
        DEFAULT_MAX_RETRIES
    }

    /// The span that a request may take, and that lies between two tries,
    /// where none is configured.
    pub fn default_timeout() -> (t: Time)
        ensures
            t.spec_secs() == DEFAULT_TIMEOUT_SECS,
            t.spec_nanos() == 0,
    {
        Time::from_secs(DEFAULT_TIMEOUT_SECS)
    }

    /// The idle connections that are kept per host where no number is
    /// configured: as many as there are.
    pub fn default_max_idle_per_host() -> (n: usize)
        ensures
            n == usize::MAX,
    {
        usize::MAX
    }

    /// A configuration with the given settings; each one that is `None`
    /// takes its default.
    pub fn new(
        max_retries: Option<u8>,
        retry_interval: Option<Time>,
        timeout: Option<Time>,
        max_idle_per_host: Option<usize>,
    ) -> (cfg: ClientConfig)
        ensures
            cfg@.max_retries == match max_retries {
                Some(n) => n,
                None => DEFAULT_MAX_RETRIES,
            },
            match retry_interval {
                Some(t) => cfg@.retry_interval == t,
                None => cfg@.retry_interval.spec_secs() == DEFAULT_TIMEOUT_SECS
                    && cfg@.retry_interval.spec_nanos() == 0,
            },
            match timeout {
                Some(t) => cfg@.timeout == t,
                None => cfg@.timeout.spec_secs() == DEFAULT_TIMEOUT_SECS && cfg@.timeout.spec_nanos()
                    == 0,
            },
            cfg@.max_idle_per_host == match max_idle_per_host {
                Some(n) => n,
                None => usize::MAX,
            },
    {
        ClientConfig {
            max_retries: match max_retries {
                Some(n) => n,
                None => ClientConfig::default_max_retries(),
            },
            retry_interval: match retry_interval {
                Some(t) => t,
                None => ClientConfig::default_timeout(),
            },
            timeout: match timeout {
                Some(t) => t,
                None => ClientConfig::default_timeout(),
            },
            max_idle_per_host: match max_idle_per_host {
                Some(n) => n,
                None => ClientConfig::default_max_idle_per_host(),
            },
        }
    }

    /// How often a failed request is tried again.
    pub fn max_retries(&self) -> (n: u8)
        ensures
            n == self@.max_retries,
    {
        self.max_retries
    }

    /// The span between two tries.
    pub fn retry_interval(&self) -> (t: Time)
        ensures
            t == self@.retry_interval,
    {
        self.retry_interval
    }

    /// The span that one request may take.
    pub fn timeout(&self) -> (t: Time)
        ensures
            t == self@.timeout,
    {
        self.timeout
    }

    /// The idle connections that are kept per host.
    pub fn max_idle_per_host(&self) -> (n: usize)
        ensures
            n == self@.max_idle_per_host,
    {
        self.max_idle_per_host
    }
}

impl Default for ClientConfig {
    fn default() -> (cfg: ClientConfig)
        ensures
            cfg@.max_retries == DEFAULT_MAX_RETRIES,
            cfg@.retry_interval.spec_secs() == DEFAULT_TIMEOUT_SECS,
            cfg@.retry_interval.spec_nanos() == 0,
            cfg@.timeout.spec_secs() == DEFAULT_TIMEOUT_SECS,
            cfg@.timeout.spec_nanos() == 0,
            cfg@.max_idle_per_host == usize::MAX,
    {
        ClientConfig::new(None, None, None, None)
    }
}

/// The settings for talking to the provider.
#[derive(Debug, PartialEq, Eq, PartialOrd, Ord)]
pub struct HttpConfig {
    client: ClientConfig,
}

impl HttpConfig {
    /// The client settings, as a mathematical value.
    pub closed spec fn spec_client(&self) -> ClientModel {
        self.client@
    }

    /// Settings with the given client configuration.
    pub fn new(client: ClientConfig) -> (cfg: HttpConfig)
        ensures
            cfg.spec_client() == client@,
    {
        HttpConfig { client }
    }

    /// How requests to the provider are made.
    pub fn client(&self) -> (client: &ClientConfig)
        ensures
            client@ == self.spec_client(),
    {
        &self.client
    }
}

/// When the address is looked at.
#[derive(Debug, PartialEq, Eq, PartialOrd, Ord)]
pub struct RefreshConfig {
    interval: Time,
    network_detection: bool,
}

impl RefreshConfig {
    /// The span between two looks.
    pub closed spec fn spec_interval(&self) -> Time {
        self.interval
    }

    /// Whether a change of the network makes the updater look at once.
    pub closed spec fn spec_network_detection(&self) -> bool {
        self.network_detection
    }

    /// The span between two looks where none is configured.
    pub fn default_interval() -> (t: Time)
        ensures
            t.spec_secs() == DEFAULT_INTERVAL_SECS,
            t.spec_nanos() == 0,
    {
        Time::from_secs(DEFAULT_INTERVAL_SECS)
    }

    /// Whether changes of the network are watched where nothing is
    /// configured: they are.
    pub fn default_network_detection() -> (on: bool)
        ensures
            on,
    {
        true
    }

    /// Settings with the given values; each one that is `None` takes its
    /// default.
    pub fn new(interval: Option<Time>, network_detection: Option<bool>) -> (cfg: RefreshConfig)
        ensures
            match interval {
                Some(t) => cfg.spec_interval() == t,
                None => cfg.spec_interval().spec_secs() == DEFAULT_INTERVAL_SECS
                    && cfg.spec_interval().spec_nanos() == 0,
            },
            cfg.spec_network_detection() == match network_detection {
                Some(on) => on,
                None => true,
            },
    {
        RefreshConfig {
            interval: match interval {
                Some(t) => t,
                None => RefreshConfig::default_interval(),
            },
            network_detection: match network_detection {
                Some(on) => on,
                None => RefreshConfig::default_network_detection(),
            },
        }
    }

    /// The span between two looks.
    pub fn interval(&self) -> (t: Time)
        ensures
            t == self.spec_interval(),
    {
        self.interval
    }

    /// Whether a change of the network makes the updater look at once.
    pub fn network_detection(&self) -> (on: bool)
        ensures
            on == self.spec_network_detection(),
    {
        self.network_detection
    }
}

/// What holds of the updater as a whole.
#[derive(Debug, PartialEq, Eq, PartialOrd, Ord)]
pub struct GeneralConfig {
    max_errors: u8,
}

impl GeneralConfig {
    #[verifier::type_invariant]
    spec fn at_least_one(self) -> bool {
        self.max_errors >= 1
    }

    /// The errors that are shown before the updater gives up.
    pub closed spec fn spec_max_errors(&self) -> u8 {
        self.max_errors
    }

    /// The errors that are shown where no number is configured.
    pub fn default_max_errors() -> (n: u8)
        ensures
            n == DEFAULT_MAX_ERRORS,
    {
        DEFAULT_MAX_ERRORS
    }

    /// Settings with the given number of errors, or with the default for
    /// `None`. There are no settings with zero errors.
    pub fn new(max_errors: Option<u8>) -> (out: Option<GeneralConfig>)
        ensures
            match max_errors {
                None => out is Some && out->0.spec_max_errors() == DEFAULT_MAX_ERRORS,
                Some(n) => if n == 0 {
                    out is None
                } else {
                    out is Some && out->0.spec_max_errors() == n
                },
            },
    {
        match max_errors {
            None => Some(GeneralConfig { max_errors: GeneralConfig::default_max_errors() }),
            Some(n) => if n == 0 {
                None
            } else {
                Some(GeneralConfig { max_errors: n })
            },
        }
    }

    /// The errors that are shown before the updater gives up; at least one.
    pub fn max_errors(&self) -> (n: u8)
        ensures
            n == self.spec_max_errors(),
            n >= 1,
    {
        proof {
            use_type_invariant(self);
        }
        self.max_errors
    }
}

/// The settings that concern neither the record nor the provider.
#[derive(Debug, PartialEq, Eq, PartialOrd, Ord)]
pub struct MiscConfig {
    refresh: RefreshConfig,
    general: GeneralConfig,
}

impl MiscConfig {
    /// The refresh settings.
    pub closed spec fn spec_refresh(&self) -> RefreshConfig {
        self.refresh
    }

    /// The general settings.
    pub closed spec fn spec_general(&self) -> GeneralConfig {
        self.general
    }

    /// Settings made of the two parts.
    pub fn new(refresh: RefreshConfig, general: GeneralConfig) -> (cfg: MiscConfig)
        ensures
            cfg.spec_refresh() == refresh,
            cfg.spec_general() == general,
    {
        MiscConfig { refresh, general }
    }

    /// When the address is looked at.
    pub fn refresh(&self) -> (refresh: &RefreshConfig)
        ensures
            *refresh == self.spec_refresh(),
    {
        &self.refresh
    }

    /// What holds of the updater as a whole.
    pub fn general(&self) -> (general: &GeneralConfig)
        ensures
            *general == self.spec_general(),
    {
        &self.general
    }
}

} // verus!
