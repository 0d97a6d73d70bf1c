//! The config resolver: from the named inputs to what the server starts with.
//!
//! Resolving reads no environment and opens no connection. It takes the inputs
//! as texts, applies the defaults, and says what is to be attempted; what comes
//! of the attempt is handed back and becomes the server's configuration.

use vstd::prelude::*;
use vstd::string::*;
use crate::database::{
    progress_matches, ConnectionError, Database, Progress, Startup, StartupStep, Verdict,
};
use crate::decimal::{parse_unsigned, parsed_unsigned};
use crate::document::{clone_optional, optional_str, optional_text};
use crate::keepalive::{
    determine_base_url, interval_of, resolve_interval, resolved_url, Scheduler, SchedulerState,
    UrlSources,
};

verus! {

/// The port the server listens on where none is given.
pub const DEFAULT_PORT: u16 = 3030;

/// The days a document is kept where none are given.
pub const DEFAULT_EXPIRY_DAYS: u32 = 1;

/// The named inputs, each as the text that was given for it, if any.
#[derive(Debug)]
pub struct ConfigInputs {
    /// The listen port.
    pub port: Option<String>,
    /// The document expiry in days.
    pub expiry_days: Option<String>,
    /// The database connection URI.
    pub database_uri: Option<String>,
    /// The keep-alive flag.
    pub keep_alive_enabled: Option<String>,
    /// The keep-alive interval in seconds.
    pub keep_alive_interval_secs: Option<String>,
    /// The explicit keep-alive target URL.
    pub keep_alive_url: Option<String>,
    /// The external URL that the hosting platform provides.
    pub external_url: Option<String>,
    /// The external hostname that the hosting platform provides.
    pub external_hostname: Option<String>,
    /// The bind host.
    pub host: Option<String>,
    /// The secure-transport flag.
    pub secure_transport: Option<String>,
}

/// A required number that could not be read. The server must not start.
#[derive(Clone, Copy, PartialEq, Eq, Debug, Structural)]
pub enum ConfigParseError {
    /// The listen port is no number from 0 to 65535.
    Port,
    /// The document expiry is no number of days that fits 32 bits.
    ExpiryDays,
}

/// The port that `raw` gives: the default where it is absent, else the number
/// it spells, which must fit 16 bits.
pub open spec fn port_of(raw: Option<Seq<char>>) -> Result<u16, ConfigParseError> {
    match raw {
        None => Ok(DEFAULT_PORT),
        Some(text) => match parsed_unsigned(text, u16::MAX as nat) {
            Some(port) => Ok(port as u16),
            None => Err(ConfigParseError::Port),
        },
    }
}

/// The expiry that `raw` gives: the default where it is absent, else the
/// number it spells, which must fit 32 bits.
pub open spec fn expiry_days_of(raw: Option<Seq<char>>) -> Result<u32, ConfigParseError> {
    match raw {
        None => Ok(DEFAULT_EXPIRY_DAYS),
        Some(text) => match parsed_unsigned(text, u32::MAX as nat) {
            Some(days) => Ok(days as u32),
            None => Err(ConfigParseError::ExpiryDays),
        },
    }
}

/// Whether a flag is set: its text is `1` or `true`. An absent flag, and any
/// other text, leaves it unset.
pub open spec fn flag_set(raw: Option<Seq<char>>) -> bool {
    match raw {
        Some(text) => text == "1"@ || text == "true"@,
        None => false,
    }
}

/// Reads the listen port.
pub fn parse_port(raw: &Option<String>) -> (port: Result<u16, ConfigParseError>)
    ensures
        port == port_of(optional_text(*raw)),
{
    match raw {
        None => Ok(DEFAULT_PORT),
        Some(text) => match parse_unsigned(text.as_str(), 65535) {
            Some(port) => Ok(port as u16),
            None => Err(ConfigParseError::Port),
        },
    }
}

/// Reads the document expiry in days.
pub fn parse_expiry_days(raw: &Option<String>) -> (days: Result<u32, ConfigParseError>)
    ensures
        days == expiry_days_of(optional_text(*raw)),
{
    match raw {
        None => Ok(DEFAULT_EXPIRY_DAYS),
        Some(text) => match parse_unsigned(text.as_str(), 0xffff_ffff) {
            Some(days) => Ok(days as u32),
            None => Err(ConfigParseError::ExpiryDays),
        },
    }
}

/// Reads a flag.
pub fn parse_flag(raw: &Option<String>) -> (set: bool)
    ensures
        set == flag_set(optional_text(*raw)),
{
    match raw {
        Some(text) => {
            let one = String::from_str("1");
            let yes = String::from_str("true");
            *text == one || *text == yes
        },
        None => false,
    }
}

/// What resolving the inputs gave: everything the server needs to start.
#[derive(Debug)]
pub struct Settings {
    /// The port to listen on.
    pub port: u16,
    /// The advisory document expiry in days.
    pub expiry_days: u32,
    /// The database to connect to, if one is configured.
    pub database_uri: Option<String>,
    /// Whether the keep-alive scheduler is enabled.
    pub keep_alive_enabled: bool,
    /// The seconds between two keep-alive pings; zero disables the scheduler.
    pub keep_alive_interval_secs: u64,
    /// The URL that the keep-alive scheduler pings.
    pub keep_alive_url: String,
}

/// The required number that cannot be read from the inputs, if there is one.
/// The port is read first.
pub open spec fn parse_failure(inputs: ConfigInputs) -> Option<ConfigParseError> {
    if port_of(optional_text(inputs.port)) is Err {
        Some(ConfigParseError::Port)
    } else if expiry_days_of(optional_text(inputs.expiry_days)) is Err {
        Some(ConfigParseError::ExpiryDays)
    } else {
        None
    }
}

/// Whether `settings` are what the inputs resolve to: each value the one that
/// was given, or its default where none was; the database exactly where a URI
/// was given; the keep-alive URL resolved against the port just read.
pub open spec fn settings_resolve(inputs: ConfigInputs, settings: Settings) -> bool {
    &&& port_of(optional_text(inputs.port)) == Ok::<u16, ConfigParseError>(settings.port)
    &&& expiry_days_of(optional_text(inputs.expiry_days)) == Ok::<u32, ConfigParseError>(
        settings.expiry_days,
    )
    &&& optional_text(settings.database_uri) == optional_text(inputs.database_uri)
    &&& settings.keep_alive_enabled == flag_set(optional_text(inputs.keep_alive_enabled))
    &&& settings.keep_alive_interval_secs == interval_of(
        optional_text(inputs.keep_alive_interval_secs),
    )
    &&& settings.keep_alive_url@ == resolved_url(
        optional_text(inputs.keep_alive_url),
        optional_text(inputs.external_url),
        optional_text(inputs.external_hostname),
        optional_text(inputs.host),
        settings.port,
        flag_set(optional_text(inputs.secure_transport)),
    )
}

/// An optional string as an optional slice.
fn as_optional_str(value: &Option<String>) -> (slice: Option<&str>)
    ensures
        optional_str(slice) == optional_text(*value),
{
    match value {
        Some(text) => Some(text.as_str()),
        None => None,
    }
}

/// Resolves the inputs. Fails exactly when the port or the expiry is given
/// and cannot be read, the port being read first; nothing else can fail.
pub fn resolve(inputs: &ConfigInputs) -> (resolved: Result<Settings, ConfigParseError>)
    ensures
        match resolved {
            Ok(settings) => parse_failure(*inputs) is None && settings_resolve(*inputs, settings),
            Err(error) => parse_failure(*inputs) == Some(error),
        },
{
    let port = match parse_port(&inputs.port) {
        Ok(port) => port,
        Err(error) => {
            return Err(error);
        },
    };
    let expiry_days = match parse_expiry_days(&inputs.expiry_days) {
        Ok(days) => days,
        Err(error) => {
            return Err(error);
        },
    };
    let sources = UrlSources {
        override_url: clone_optional(&inputs.keep_alive_url),
        external_url: clone_optional(&inputs.external_url),
        external_hostname: clone_optional(&inputs.external_hostname),
        host: clone_optional(&inputs.host),
        port,
        secure: parse_flag(&inputs.secure_transport),
    };
    Ok(
        Settings {
            port,
            expiry_days,
            database_uri: clone_optional(&inputs.database_uri),
            keep_alive_enabled: parse_flag(&inputs.keep_alive_enabled),
            keep_alive_interval_secs: resolve_interval(
                as_optional_str(&inputs.keep_alive_interval_secs),
            ),
            keep_alive_url: determine_base_url(&sources),
        },
    )
}

/// Whether `begun` is how persistence begins for `settings`: with a URI, a
/// startup on it with opening the pool pending; without one, not configured,
/// and so with nothing to run.
pub open spec fn begins_persistence(settings: Settings, begun: Result<Startup, Persistence>) -> bool {
    match settings.database_uri {
        Some(uri) => begun matches Ok(startup) && startup.uri() == uri@ && startup.step()
            == StartupStep::Connect,
        None => begun == Err::<Startup, Persistence>(Persistence::NotConfigured),
    }
}

impl Settings {
    /// Begins persistence: the database startup to run where a URI is
    /// configured. Without a URI persistence is not configured, and there is
    /// nothing to run and nothing to contact.
    pub fn begin_persistence(&self) -> (begun: Result<Startup, Persistence>)
        ensures
            begins_persistence(*self, begun),
    {
        match &self.database_uri {
            Some(uri) => Ok(Database::new(uri.as_str())),
            None => Err(Persistence::NotConfigured),
        }
    }

    /// The keep-alive scheduler to run, if one is to run: none unless
    /// keep-alive is enabled and the interval is not zero.
    pub fn scheduler(&self) -> (scheduler: Option<Scheduler>)
        ensures
            scheduler is Some <==> self.keep_alive_enabled && self.keep_alive_interval_secs > 0,
            scheduler matches Some(planned) ==> planned.url() == self.keep_alive_url@
                && planned.interval_secs() == self.keep_alive_interval_secs && planned.state()
                == SchedulerState::Idle,
    {
        Scheduler::plan(
            self.keep_alive_enabled,
            self.keep_alive_interval_secs,
            self.keep_alive_url.clone(),
        )
    }
}

/// What became of persistence at startup.
#[derive(Debug)]
pub enum Persistence {
    /// The database came up: the handle.
    Enabled(Database),
    /// A database was configured and did not come up: the server runs
    /// without persistence.
    Degraded(ConnectionError),
    /// No database was configured.
    NotConfigured,
}

/// What a finished startup means for persistence; `None` while a step is
/// still pending.
pub open spec fn persistence_of(progress: Progress) -> Option<Persistence> {
    match progress {
        Progress::Ready(database) => Some(Persistence::Enabled(database)),
        Progress::Failed(error) => Some(Persistence::Degraded(error)),
        Progress::Continue(_) => None,
    }
}

/// The handle that the server holds: the database's where it came up, and
/// none otherwise.
pub open spec fn database_of(persistence: Persistence) -> Option<Database> {
    match persistence {
        Persistence::Enabled(database) => Some(database),
        _ => None,
    }
}

/// Turns a finished startup into what became of persistence: enabled with the
/// handle, or degraded with the cause. A startup with a step still pending is
/// handed back unchanged.
pub fn persistence_after(progress: Progress) -> (outcome: Result<Persistence, Startup>)
    ensures
        match outcome {
            Ok(persistence) => persistence_of(progress) == Some(persistence),
            Err(pending) => progress == Progress::Continue(pending),
        },
{
    match progress {
        Progress::Ready(database) => Ok(Persistence::Enabled(database)),
        Progress::Failed(error) => Ok(Persistence::Degraded(error)),
        Progress::Continue(pending) => Err(pending),
    }
}

/// The server's configuration: set once at startup.
#[derive(Debug)]
pub struct ServerConfig {
    /// Number of days to retain documents; advisory.
    pub expiry_days: u32,
    /// The database handle; `None` where the server runs without persistence.
    pub database: Option<Database>,
}

impl ServerConfig {
    /// Assembles the configuration: the server holds a database exactly where
    /// persistence is enabled.
    pub fn new(expiry_days: u32, persistence: Persistence) -> (config: ServerConfig)
        ensures
            config.expiry_days == expiry_days,
            config.database == database_of(persistence),
    {
        let database = match persistence {
            Persistence::Enabled(database) => Some(database),
            Persistence::Degraded(_) => None,
            Persistence::NotConfigured => None,
        };
        ServerConfig { expiry_days, database }
    }
}

/// A database that fails to come up does not keep the server from starting:
/// the startup ends, persistence is degraded, and the configuration holds no
/// database.
pub proof fn law_failed_connection_degrades(
    uri: Seq<char>,
    error: ConnectionError,
    progress: Progress,
)
    requires
        progress_matches(uri, Verdict::Failed(error), progress),
    ensures
        persistence_of(progress) == Some(Persistence::Degraded(error)),
        database_of(persistence_of(progress)->0) is None,
{
}

/// Without a database URI the server holds no database: no startup is begun,
/// so nothing is contacted, and the configuration made of what was begun
/// holds none.
pub proof fn law_unconfigured_has_no_database(
    settings: Settings,
    begun: Result<Startup, Persistence>,
)
    requires
        settings.database_uri is None,
        begins_persistence(settings, begun),
    ensures
        begun is Err,
        database_of(begun->Err_0) is None,
{
}

} // verus!
