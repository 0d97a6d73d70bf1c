//! The keep-alive scheduler: where it pings, how often, and what it does next.
//!
//! The scheduler keeps the process warm on hosts that reclaim idle services by
//! pinging the service's own URL at a fixed interval. Nothing here sleeps or
//! sends: the scheduler says what is to be done, and is told what happened.

use vstd::prelude::*;
use vstd::string::*;
use crate::decimal::{decimal, parse_unsigned, parsed_unsigned, push_decimal};
use crate::document::{optional_str, optional_text};

verus! {

/// The seconds between two pings where no interval is given, or none that can
/// be read.
pub const DEFAULT_INTERVAL_SECS: u64 = 30;

/// Where the URL to ping can come from, highest priority first, and what the
/// local fallback is built from.
#[derive(Debug)]
pub struct UrlSources {
    /// An explicit target URL; wins over everything else.
    pub override_url: Option<String>,
    /// The external URL that the hosting platform provides.
    pub external_url: Option<String>,
    /// The external hostname that the hosting platform provides.
    pub external_hostname: Option<String>,
    /// The host the server binds to; `localhost` where absent.
    pub host: Option<String>,
    /// The port the server listens on.
    pub port: u16,
    /// Whether the local fallback uses the secure scheme.
    pub secure: bool,
}

/// A source that is set and not empty.
pub open spec fn present(source: Option<Seq<char>>) -> Option<Seq<char>> {
    match source {
        Some(text) => if text.len() > 0 {
            Some(text)
        } else {
            None
        },
        None => None,
    }
}

/// The local fallback: scheme, host and port, and no path.
pub open spec fn local_url(host: Option<Seq<char>>, port: u16, secure: bool) -> Seq<char> {
    (if secure {
        "https://"@
    } else {
        "http://"@
    }) + (match host {
        Some(name) => name,
        None => "localhost"@,
    }) + ":"@ + decimal(port as nat)
}

/// The URL to ping: the first source that is set and not empty, in the order
/// override, external URL, external hostname behind the secure prefix; the
/// local fallback where none is.
pub open spec fn resolved_url(
    override_url: Option<Seq<char>>,
    external_url: Option<Seq<char>>,
    external_hostname: Option<Seq<char>>,
    host: Option<Seq<char>>,
    port: u16,
    secure: bool,
) -> Seq<char> {
    if let Some(url) = present(override_url) {
        url
    } else if let Some(url) = present(external_url) {
        url
    } else if let Some(hostname) = present(external_hostname) {
        "https://"@ + hostname
    } else {
        local_url(present(host), port, secure)
    }
}

/// The URL to ping, given the sources.
pub open spec fn base_url(sources: UrlSources) -> Seq<char> {
    resolved_url(
        optional_text(sources.override_url),
        optional_text(sources.external_url),
        optional_text(sources.external_hostname),
        optional_text(sources.host),
        sources.port,
        sources.secure,
    )
}

/// The source's text, if it is set and not empty.
fn non_empty(source: &Option<String>) -> (text: Option<&String>)
    ensures
        match text {
            Some(found) => present(optional_text(*source)) == Some(found@),
            None => present(optional_text(*source)) is None,
        },
{
    match source {
        Some(text) => {
            if text.as_str().unicode_len() > 0 {
                Some(text)
            } else {
                None
            }
        },
        None => None,
    }
}

/// Determines the URL that the scheduler pings.
pub fn determine_base_url(sources: &UrlSources) -> (url: String)
    ensures
        url@ == base_url(*sources),
{
    if let Some(url) = non_empty(&sources.override_url) {
        return url.clone();
    }
    if let Some(url) = non_empty(&sources.external_url) {
        return url.clone();
    }
    if let Some(hostname) = non_empty(&sources.external_hostname) {
        let mut url = String::from_str("https://");
        url.append(hostname.as_str());
        return url;
    }
    let mut url = if sources.secure {
        String::from_str("https://")
    } else {
        String::from_str("http://")
    };
    match non_empty(&sources.host) {
        Some(host) => url.append(host.as_str()),
        None => url.append("localhost"),
    }
    url.append(":");
    push_decimal(&mut url, sources.port as u64);
    url
}

/// The interval that `raw` asks for: the number it spells, or the default
/// where it is absent or spells none.
pub open spec fn interval_of(raw: Option<Seq<char>>) -> u64 {
    match raw {
        Some(text) => match parsed_unsigned(text, u64::MAX as nat) {
            Some(seconds) => seconds as u64,
            None => DEFAULT_INTERVAL_SECS,
        },
        None => DEFAULT_INTERVAL_SECS,
    }
}

/// Reads the interval in seconds. An interval that cannot be read is no
/// reason to fail: the default stands in.
pub fn resolve_interval(raw: Option<&str>) -> (seconds: u64)
    ensures
        seconds == interval_of(optional_str(raw)),
{
    match raw {
        Some(text) => match parse_unsigned(text, u64::MAX) {
            Some(seconds) => seconds,
            None => DEFAULT_INTERVAL_SECS,
        },
        None => DEFAULT_INTERVAL_SECS,
    }
}

/// How a ping ended.
#[derive(PartialEq, Eq, Debug)]
pub enum PingOutcome {
    /// A response came back, with this HTTP status code.
    Status(u16),
    /// No response came back; the text is the transport's complaint.
    TransportFailure(String),
}

/// What a ping's outcome amounts to, for the log.
#[derive(Clone, Copy, PartialEq, Eq, Debug, Structural)]
pub enum PingClass {
    /// A response with a success status.
    Success,
    /// A response with any other status.
    NonSuccessStatus,
    /// No response at all.
    TransportFailure,
}

/// The class of an outcome: a status from 200 to 299 is a success, any other
/// status is not, and a failure of the transport is one of its own.
pub open spec fn ping_class(outcome: PingOutcome) -> PingClass {
    match outcome {
        PingOutcome::Status(code) => if 200 <= code < 300 {
            PingClass::Success
        } else {
            PingClass::NonSuccessStatus
        },
        PingOutcome::TransportFailure(_) => PingClass::TransportFailure,
    }
}

/// Whether the HTTP status `code` is a success. Calls `StatusCode::from_u16`
/// and `StatusCode::is_success` of the `http` crate, as `reqwest` re-exports
/// them: the first refuses codes below 100 and from 1000 on, which are no
/// successes; the second holds exactly for the codes from 200 to 299.
#[verifier::external_body]
fn status_is_success(code: u16) -> (success: bool)
    ensures
        success == (200 <= code < 300),
{
    match reqwest::StatusCode::from_u16(code) {
        Ok(status) => status.is_success(),
        Err(_) => false,
    }
}

/// Classifies the outcome of a ping. The class is for diagnostics only: the
/// scheduler goes on in the same way whatever it is.
pub fn classify_ping(outcome: &PingOutcome) -> (class: PingClass)
    ensures
        class == ping_class(*outcome),
{
    match outcome {
        PingOutcome::Status(code) => {
            if status_is_success(*code) {
                PingClass::Success
            } else {
                PingClass::NonSuccessStatus
            }
        },
        PingOutcome::TransportFailure(_) => PingClass::TransportFailure,
    }
}

impl PingClass {
    /// Whether the outcome is worth a warning: everything but a success is.
    pub fn is_warning(&self) -> (warning: bool)
        ensures
            warning == (*self != PingClass::Success),
    {
        match self {
            PingClass::Success => false,
            PingClass::NonSuccessStatus => true,
            PingClass::TransportFailure => true,
        }
    }
}

/// The states of the scheduler.
#[derive(Clone, Copy, PartialEq, Eq, Debug, Structural)]
pub enum SchedulerState {
    /// Not started yet.
    Idle,
    /// Waiting for the interval to pass.
    Sleeping,
    /// Waiting for the ping to resolve.
    Pinging,
}

/// What the scheduler is told.
#[derive(PartialEq, Eq, Debug)]
pub enum SchedulerEvent {
    /// The scheduler is started.
    Start,
    /// The interval has passed.
    TimerFired,
    /// The ping has resolved, in success or in failure.
    PingResolved(PingOutcome),
}

/// What the scheduler asks for.
#[derive(PartialEq, Eq, Debug)]
pub enum SchedulerAction {
    /// Sleep for this many seconds, then report that the timer fired.
    Sleep { seconds: u64 },
    /// Send one GET to this URL, then report how it resolved.
    Ping { url: String },
    /// The event does not belong to the state: do nothing.
    Nothing,
}

/// Whether `event` is the one that `state` waits for.
pub open spec fn expected(state: SchedulerState, event: SchedulerEvent) -> bool {
    match state {
        SchedulerState::Idle => event is Start,
        SchedulerState::Sleeping => event is TimerFired,
        SchedulerState::Pinging => event is PingResolved,
    }
}

/// The state after `event`: from idle to sleeping on start, from sleeping to
/// pinging when the timer fires, from pinging back to sleeping when the ping
/// resolves, however it did. An event that the state does not wait for
/// changes nothing.
pub open spec fn next_state(state: SchedulerState, event: SchedulerEvent) -> SchedulerState {
    if expected(state, event) {
        match state {
            SchedulerState::Idle => SchedulerState::Sleeping,
            SchedulerState::Sleeping => SchedulerState::Pinging,
            SchedulerState::Pinging => SchedulerState::Sleeping,
        }
    } else {
        state
    }
}

/// Whether `action` is what a scheduler on `url` with `seconds` between pings
/// asks for when `event` reaches it in `state`: a sleep of the interval on
/// entering the sleeping state, a ping of the URL on entering the pinging
/// state, and nothing for an event that the state does not wait for.
pub open spec fn action_fits(
    url: Seq<char>,
    seconds: u64,
    state: SchedulerState,
    event: SchedulerEvent,
    action: SchedulerAction,
) -> bool {
    if expected(state, event) {
        match state {
            SchedulerState::Sleeping => action matches SchedulerAction::Ping { url: target }
                && target@ == url,
            _ => action == (SchedulerAction::Sleep { seconds }),
        }
    } else {
        action == SchedulerAction::Nothing
    }
}

/// The keep-alive scheduler: its target, its interval and its state.
#[derive(Debug)]
pub struct Scheduler {
    url: String,
    interval_secs: u64,
    state: SchedulerState,
}

impl Scheduler {
    /// The URL that is pinged.
    pub closed spec fn url(&self) -> Seq<char> {
        self.url@
    }

    /// The seconds between two pings.
    pub closed spec fn interval_secs(&self) -> u64 {
        self.interval_secs
    }

    /// The state the scheduler is in.
    pub closed spec fn state(&self) -> SchedulerState {
        self.state
    }

    /// The scheduler to run, if one is to run at all: none where keep-alive is
    /// not enabled, and none for an interval of zero. The scheduler that comes
    /// back is idle.
    pub fn plan(enabled: bool, interval_secs: u64, url: String) -> (scheduler: Option<Scheduler>)
        ensures
            scheduler is Some <==> enabled && interval_secs > 0,
            scheduler matches Some(planned) ==> planned.url() == url@ && planned.interval_secs()
                == interval_secs && planned.state() == SchedulerState::Idle,
    {
        if enabled && interval_secs > 0 {
            Some(Scheduler { url, interval_secs, state: SchedulerState::Idle })
        } else {
            None
        }
    }

    /// The state the scheduler is in.
    pub fn current_state(&self) -> (state: SchedulerState)
        ensures
            state == self.state(),
    {
        self.state
    }
}

/// Takes one event and says what is to be done next. Target and interval
/// never change, and no outcome of a ping stops the scheduler: it sleeps
/// again after a failure exactly as after a success.
pub fn keep_alive_ping(scheduler: &mut Scheduler, event: &SchedulerEvent) -> (action:
    SchedulerAction)
    ensures
        final(scheduler).url() == old(scheduler).url(),
        final(scheduler).interval_secs() == old(scheduler).interval_secs(),
        final(scheduler).state() == next_state(old(scheduler).state(), *event),
        action_fits(
            old(scheduler).url(),
            old(scheduler).interval_secs(),
            old(scheduler).state(),
            *event,
            action,
        ),
{
    match (scheduler.state, event) {
        (SchedulerState::Idle, SchedulerEvent::Start) => {
            scheduler.state = SchedulerState::Sleeping;
            SchedulerAction::Sleep { seconds: scheduler.interval_secs }
        },
        (SchedulerState::Sleeping, SchedulerEvent::TimerFired) => {
            scheduler.state = SchedulerState::Pinging;
            SchedulerAction::Ping { url: scheduler.url.clone() }
        },
        (SchedulerState::Pinging, SchedulerEvent::PingResolved(_)) => {
            scheduler.state = SchedulerState::Sleeping;
            SchedulerAction::Sleep { seconds: scheduler.interval_secs }
        },
        _ => SchedulerAction::Nothing,
    }
}

/// The state after a run of events, taken in order.
pub open spec fn state_after_run(state: SchedulerState, events: Seq<SchedulerEvent>) -> SchedulerState
    decreases events.len(),
{
    if events.len() == 0 {
        state
    } else {
        next_state(state_after_run(state, events.drop_last()), events.last())
    }
}

/// No state is terminal: once started, the scheduler is sleeping or pinging
/// after every run of events; it waits for an event in each of the two, and
/// that event moves it to the other, whatever the outcome of the ping was.
pub proof fn law_scheduler_never_stops(
    state: SchedulerState,
    events: Seq<SchedulerEvent>,
    outcome: PingOutcome,
)
    requires
        state != SchedulerState::Idle,
    ensures
        state_after_run(state, events) != SchedulerState::Idle,
        next_state(SchedulerState::Sleeping, SchedulerEvent::TimerFired)
            == SchedulerState::Pinging,
        next_state(SchedulerState::Pinging, SchedulerEvent::PingResolved(outcome))
            == SchedulerState::Sleeping,
    decreases events.len(),
{
    if events.len() > 0 {
        law_scheduler_never_stops(state, events.drop_last(), outcome);
    }
}

/// A failed ping leaves no mark: whatever the outcomes of two pings, the
/// scheduler is in the same state after either, and asks for the same sleep.
pub proof fn law_ping_outcome_is_forgotten(
    url: Seq<char>,
    seconds: u64,
    one: PingOutcome,
    other: PingOutcome,
    action_one: SchedulerAction,
    action_other: SchedulerAction,
)
    requires
        action_fits(
            url,
            seconds,
            SchedulerState::Pinging,
            SchedulerEvent::PingResolved(one),
            action_one,
        ),
        action_fits(
            url,
            seconds,
            SchedulerState::Pinging,
            SchedulerEvent::PingResolved(other),
            action_other,
        ),
    ensures
        next_state(SchedulerState::Pinging, SchedulerEvent::PingResolved(one)) == next_state(
            SchedulerState::Pinging,
            SchedulerEvent::PingResolved(other),
        ),
        next_state(SchedulerState::Pinging, SchedulerEvent::PingResolved(one))
            == SchedulerState::Sleeping,
        action_one == action_other,
        action_one == (SchedulerAction::Sleep { seconds }),
{
}

/// The override wins: where an explicit URL is set and not empty, it is the
/// URL that is pinged, whatever the platform provides.
pub proof fn law_override_wins(sources: UrlSources)
    requires
        present(optional_text(sources.override_url)) is Some,
    ensures
        Some(base_url(sources)) == optional_text(sources.override_url),
{
}

/// With no override and no external URL, but the platform's hostname, the URL
/// is the secure prefix followed by that hostname, and nothing after it.
pub proof fn law_hostname_behind_secure_prefix(sources: UrlSources)
    requires
        present(optional_text(sources.override_url)) is None,
        present(optional_text(sources.external_url)) is None,
        present(optional_text(sources.external_hostname)) is Some,
    ensures
        base_url(sources) == "https://"@ + optional_text(sources.external_hostname)->0,
{
}

} // verus!
