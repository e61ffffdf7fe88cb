//! The connection supervisor as a state machine. The driver performs each
//! action (a scan, a sleep, a connect, a wait for the next notification, ...)
//! and reports how it went as an event; `Supervisor::handle` decides what
//! comes next. Only one session exists at a time: the phase is the session.

use vstd::prelude::*;
use crate::codec::{lemma_short_rejected, notification_sample, required_len, sample_from_notification};
use crate::config::Config;
use crate::selector::{is_selection, select_device, Observation, SelectError};

verus! {

/// Where the supervisor stands.
#[derive(Clone, Copy, Debug, PartialEq, Eq, Structural)]
pub enum Phase {
    /// Waiting for the result of a scan.
    Scanning,
    /// A scan found nothing usable; waiting out the retry delay.
    ScanBackoff,
    /// A device is held; waiting to learn whether it is already connected.
    Adopting,
    /// Waiting for a connect to finish.
    Connecting,
    /// Waiting for service discovery and the device's characteristics.
    Discovering,
    /// Waiting for the subscription to the given characteristic.
    Subscribing { characteristic: usize },
    /// Receiving notifications.
    Streaming,
    /// The session ended; waiting out the retry delay.
    Backoff,
    /// Waiting to learn whether the adapter still knows the device.
    CheckingPresence,
    /// The adapter could not be queried; nothing more is done.
    Halted,
}

/// What the driver reports back.
#[derive(Clone, Debug)]
pub enum Event {
    /// A scan ended: the number of adapters, and for each discovered
    /// peripheral its properties, or `None` where they could not be read.
    Observed { adapters: usize, peripherals: Vec<Option<Observation>> },
    /// A transport operation (scan, connect, discovery, subscribe, stream) failed.
    TransportFailed,
    /// A requested sleep is over.
    Slept,
    /// Whether the held device reports itself connected.
    LinkStatus(bool),
    Connected,
    /// Services were discovered; the device's characteristics.
    Discovered(Vec<CharacteristicInfo>),
    Subscribed,
    /// A notification arrived from the given characteristic.
    Notification { uuid: u128, payload: Vec<u8> },
    /// No notification arrived within the idle timeout.
    IdleTimeout,
    /// The notification stream ended without error.
    StreamClosed,
    /// Whether the held device is still in the adapter's peripheral list.
    Presence(bool),
    /// The adapter list could not be queried.
    AdapterFailed,
}

/// What the driver is asked to do next.
#[derive(Clone, Copy, Debug, PartialEq, Eq, Structural)]
pub enum Action {
    /// Scan for `secs` seconds filtered to `service`, then report `Observed`.
    Scan { service: u128, secs: u64 },
    /// Sleep `secs` seconds after a failed scan (`cause` when selection
    /// decided it), then report `Slept`.
    RetryScan { cause: Option<SelectError>, secs: u64 },
    /// Hold the peripheral at `index` of the last scan, then report its `LinkStatus`.
    Adopt { index: usize },
    /// Report the held device's `LinkStatus`.
    QueryLink,
    Connect,
    DiscoverServices,
    /// Subscribe to the characteristic at `index` of the discovered list.
    Subscribe { index: usize },
    /// Wait up to `secs` seconds for the next notification.
    AwaitNotification { secs: u64 },
    /// Write `sample` to the file sink and send its bundle, then wait up to
    /// `secs` seconds for the next notification.
    Publish { sample: u8, secs: u64 },
    /// Sleep `secs` seconds after a session ended or failed, then report `Slept`.
    Retry { secs: u64 },
    /// Report the held device's `Presence`.
    CheckPresence,
    /// Stop: the adapter could not be queried.
    Halt,
}

/// A characteristic as discovered: its UUID and whether it can notify.
#[derive(Clone, Copy, Debug, PartialEq, Eq, Structural)]
pub struct CharacteristicInfo {
    pub uuid: u128,
    pub notify: bool,
}

/// Why a session could not be set up.
#[derive(Clone, Copy, Debug, PartialEq, Eq, Structural)]
pub enum SessionError {
    CharacteristicNotFound,
    SubscriptionFailed,
}

/// `r` is the outcome of looking up `uuid` among `chars`: the first
/// characteristic with that UUID, which must support notification.
pub open spec fn is_located(chars: Seq<CharacteristicInfo>, uuid: u128, r: Result<usize, SessionError>) -> bool {
    match r {
        Ok(i) => i < chars.len() && chars[i as int].uuid == uuid && chars[i as int].notify && forall|j: int|
            0 <= j < i ==> (#[trigger] chars[j]).uuid != uuid,
        Err(SessionError::CharacteristicNotFound) => forall|j: int|
            0 <= j < chars.len() ==> (#[trigger] chars[j]).uuid != uuid,
        Err(SessionError::SubscriptionFailed) => exists|i: int|
            0 <= i < chars.len() && (#[trigger] chars[i]).uuid == uuid && !chars[i].notify && forall|j: int|
                0 <= j < i ==> (#[trigger] chars[j]).uuid != uuid,
    }
}

/// Finds the heart-rate characteristic and checks that it can notify.
pub fn locate_characteristic(chars: &Vec<CharacteristicInfo>, uuid: u128) -> (r: Result<usize, SessionError>)
    ensures
        is_located(chars@, uuid, r),
{
    let mut i: usize = 0;
    while i < chars.len()
        invariant
            i <= chars@.len(),
            forall|j: int| 0 <= j < i ==> (#[trigger] chars@[j]).uuid != uuid,
        decreases chars@.len() - i,
    {
        if chars[i].uuid == uuid {
            if chars[i].notify {
                return Ok(i);
            } else {
                return Err(SessionError::SubscriptionFailed);
            }
        }
        i += 1;
    }
    Err(SessionError::CharacteristicNotFound)
}

/// Whether the device's address is among those the adapter currently knows.
pub fn device_present(known: &Vec<u64>, address: u64) -> (r: bool)
    ensures
        r == known@.contains(address),
{
    let mut i: usize = 0;
    while i < known.len()
        invariant
            i <= known@.len(),
            forall|j: int| 0 <= j < i ==> known@[j] != address,
        decreases known@.len() - i,
    {
        if known[i] == address {
            return true;
        }
        i += 1;
    }
    false
}

pub open spec fn scan_action(cfg: &Config) -> Action {
    Action::Scan { service: cfg.heart_rate_service_uuid, secs: cfg.scan_duration_secs }
}

pub open spec fn retry(cfg: &Config) -> (Phase, Action) {
    (Phase::Backoff, Action::Retry { secs: cfg.retry_delay_secs })
}

pub open spec fn await_next(cfg: &Config) -> Action {
    Action::AwaitNotification { secs: cfg.heartbeat_timeout_secs }
}

/// `r` (next phase and action) is the supervisor's answer to `event` in `phase`.
pub open spec fn is_step(phase: Phase, event: Event, cfg: &Config, r: (Phase, Action)) -> bool {
    match phase {
        Phase::Scanning => match event {
            Event::Observed { adapters, peripherals } => match r.1 {
                Action::Adopt { index } => r.0 == Phase::Adopting && is_selection(
                    adapters as nat,
                    peripherals@,
                    cfg.target_device_names@,
                    cfg.selection_mode,
                    Ok(index),
                ),
                Action::RetryScan { cause: Some(e), secs } => r.0 == Phase::ScanBackoff && secs
                    == cfg.retry_delay_secs && is_selection(
                    adapters as nat,
                    peripherals@,
                    cfg.target_device_names@,
                    cfg.selection_mode,
                    Err(e),
                ),
                _ => false,
            },
            Event::TransportFailed => r == (
                Phase::ScanBackoff,
                Action::RetryScan { cause: None, secs: cfg.retry_delay_secs },
            ),
            _ => r == (Phase::Halted, Action::Halt),
        },
        Phase::ScanBackoff => match event {
            Event::Slept => r == (Phase::Scanning, scan_action(cfg)),
            _ => r == (Phase::Halted, Action::Halt),
        },
        Phase::Adopting => match event {
            Event::LinkStatus(true) => r == (Phase::Discovering, Action::DiscoverServices),
            Event::LinkStatus(false) => r == (Phase::Connecting, Action::Connect),
            Event::TransportFailed => r == retry(cfg),
            _ => r == (Phase::Halted, Action::Halt),
        },
        Phase::Connecting => match event {
            Event::Connected => r == (Phase::Discovering, Action::DiscoverServices),
            Event::TransportFailed => r == retry(cfg),
            _ => r == (Phase::Halted, Action::Halt),
        },
        Phase::Discovering => match event {
            Event::Discovered(chars) => match r.1 {
                Action::Subscribe { index } => r.0 == (Phase::Subscribing { characteristic: index })
                    && is_located(chars@, cfg.heart_rate_char_uuid, Ok(index)),
                _ => r == retry(cfg) && exists|e: SessionError|
                    is_located(chars@, cfg.heart_rate_char_uuid, Err(e)),
            },
            Event::TransportFailed => r == retry(cfg),
            _ => r == (Phase::Halted, Action::Halt),
        },
        Phase::Subscribing { characteristic } => match event {
            Event::Subscribed => r == (Phase::Streaming, await_next(cfg)),
            Event::TransportFailed => r == retry(cfg),
            _ => r == (Phase::Halted, Action::Halt),
        },
        Phase::Streaming => match event {
            Event::Notification { uuid, payload } => match notification_sample(
                uuid,
                payload@,
                cfg.heart_rate_char_uuid,
            ) {
                Some(s) => r == (
                    Phase::Streaming,
                    Action::Publish { sample: s, secs: cfg.heartbeat_timeout_secs },
                ),
                None => r == (Phase::Streaming, await_next(cfg)),
            },
            Event::IdleTimeout => r == retry(cfg),
            Event::StreamClosed => r == retry(cfg),
            Event::TransportFailed => r == retry(cfg),
            _ => r == (Phase::Halted, Action::Halt),
        },
        Phase::Backoff => match event {
            Event::Slept => r == (Phase::CheckingPresence, Action::CheckPresence),
            _ => r == (Phase::Halted, Action::Halt),
        },
        Phase::CheckingPresence => match event {
            Event::Presence(true) => r == (Phase::Adopting, Action::QueryLink),
            Event::Presence(false) => r == (Phase::Scanning, scan_action(cfg)),
            _ => r == (Phase::Halted, Action::Halt),
        },
        Phase::Halted => r == (Phase::Halted, Action::Halt),
    }
}

/// The supervisor's state: the phase of the one session it runs.
pub struct Supervisor {
    pub phase: Phase,
}

impl Supervisor {
    /// A supervisor about to scan.
    pub fn new() -> (r: Supervisor)
        ensures
            r.phase == Phase::Scanning,
    {
        Supervisor { phase: Phase::Scanning }
    }

    /// The action that opens the first scan.
    pub fn first_action(config: &Config) -> (r: Action)
        ensures
            r == scan_action(config),
    {
        Action::Scan { service: config.heart_rate_service_uuid, secs: config.scan_duration_secs }
    }

    fn retry_action(config: &Config) -> (r: (Phase, Action))
        ensures
            r == retry(config),
    {
        (Phase::Backoff, Action::Retry { secs: config.retry_delay_secs })
    }

    /// Moves to the next phase on `event` and returns the action to perform.
    /// An event that the phase does not wait for halts the supervisor.
    pub fn handle(&mut self, event: &Event, config: &Config) -> (r: Action)
        ensures
            is_step(old(self).phase, *event, config, (final(self).phase, r)),
    {
        let halt = (Phase::Halted, Action::Halt);
        let (phase, action) = match self.phase {
            Phase::Scanning => match event {
                Event::Observed { adapters, peripherals } => {
                    match select_device(
                        *adapters,
                        peripherals,
                        &config.target_device_names,
                        config.selection_mode,
                    ) {
                        Ok(index) => (Phase::Adopting, Action::Adopt { index }),
                        Err(e) => (
                            Phase::ScanBackoff,
                            Action::RetryScan { cause: Some(e), secs: config.retry_delay_secs },
                        ),
                    }
                },
                Event::TransportFailed => (
                    Phase::ScanBackoff,
                    Action::RetryScan { cause: None, secs: config.retry_delay_secs },
                ),
                _ => halt,
            },
            Phase::ScanBackoff => match event {
                Event::Slept => (Phase::Scanning, Self::first_action(config)),
                _ => halt,
            },
            Phase::Adopting => match event {
                Event::LinkStatus(true) => (Phase::Discovering, Action::DiscoverServices),
                Event::LinkStatus(false) => (Phase::Connecting, Action::Connect),
                Event::TransportFailed => Self::retry_action(config),
                _ => halt,
            },
            Phase::Connecting => match event {
                Event::Connected => (Phase::Discovering, Action::DiscoverServices),
                Event::TransportFailed => Self::retry_action(config),
                _ => halt,
            },
            Phase::Discovering => match event {
                Event::Discovered(chars) => {
                    match locate_characteristic(chars, config.heart_rate_char_uuid) {
                        Ok(index) => (
                            Phase::Subscribing { characteristic: index },
                            Action::Subscribe { index },
                        ),
                        Err(_) => Self::retry_action(config),
                    }
                },
                Event::TransportFailed => Self::retry_action(config),
                _ => halt,
            },
            Phase::Subscribing { characteristic: _ } => match event {
                Event::Subscribed => (
                    Phase::Streaming,
                    Action::AwaitNotification { secs: config.heartbeat_timeout_secs },
                ),
                Event::TransportFailed => Self::retry_action(config),
                _ => halt,
            },
            Phase::Streaming => match event {
                Event::Notification { uuid, payload } => {
                    match sample_from_notification(
                        *uuid,
                        payload.as_slice(),
                        config.heart_rate_char_uuid,
                    ) {
                        Some(sample) => (
                            Phase::Streaming,
                            Action::Publish { sample, secs: config.heartbeat_timeout_secs },
                        ),
                        None => (
                            Phase::Streaming,
                            Action::AwaitNotification { secs: config.heartbeat_timeout_secs },
                        ),
                    }
                },
                Event::IdleTimeout => Self::retry_action(config),
                Event::StreamClosed => Self::retry_action(config),
                Event::TransportFailed => Self::retry_action(config),
                _ => halt,
            },
            Phase::Backoff => match event {
                Event::Slept => (Phase::CheckingPresence, Action::CheckPresence),
                _ => halt,
            },
            Phase::CheckingPresence => match event {
                Event::Presence(true) => (Phase::Adopting, Action::QueryLink),
                Event::Presence(false) => (Phase::Scanning, Self::first_action(config)),
                _ => halt,
            },
            Phase::Halted => halt,
        };
        self.phase = phase;
        action
    }
}

/// A notification whose payload is shorter than its declared width keeps the
/// supervisor streaming and publishes nothing.
pub proof fn lemma_short_payload_not_published(uuid: u128, payload: Vec<u8>, cfg: &Config, r: (Phase, Action))
    requires
        payload@.len() == 0 || payload@.len() < required_len(payload@[0]),
        is_step(Phase::Streaming, Event::Notification { uuid, payload }, cfg, r),
    ensures
        r == (Phase::Streaming, await_next(cfg)),
        !(r.1 is Publish),
{
    lemma_short_rejected(uuid, payload@, cfg.heart_rate_char_uuid);
}

} // verus!
