//! The haptic feedback controller: event-to-waveform mapping, debouncing,
//! slice re-entry suppression and the connection lifecycle.
//!
//! The controller decides and the caller acts. A function that would touch
//! the device returns what is to be done; the caller does it and reports how
//! it went. Time is an argument everywhere: milliseconds of a wall clock that
//! the caller reads.

use vstd::prelude::*;
use crate::config::HapticConfig;
use crate::hidpp::device::{DeviceModel, HidppDevice};
use crate::hidpp::error::HapticError;
use crate::hidpp::exchange::{reply_bytes, ExchangeOutcome, HidppRequest};
use crate::hidpp::patterns::{
    HapticEvent,
    HapticPattern,
    HapticPulse,
    Mx4HapticPattern,
    PerEventPattern,
};

verus! {

/// Minimum time between a connection failure and the next attempt to
/// reconnect, in milliseconds.
pub const RECONNECT_COOLDOWN_MS: u64 = 5000;

/// Default minimum time between two pulses, in milliseconds.
pub const DEFAULT_DEBOUNCE_MS: u64 = 20;

/// Default minimum time between two slice-change pulses, in milliseconds.
pub const DEFAULT_SLICE_DEBOUNCE_MS: u64 = 20;

/// Default re-entry window, in milliseconds.
pub const DEFAULT_REENTRY_DEBOUNCE_MS: u64 = 50;

/// Intensity of every legacy pulse that stands in for a waveform.
pub const LEGACY_INTENSITY: u8 = 50;

/// Where the connection to the device stands.
#[derive(Debug, Clone, Copy, PartialEq, Eq, Structural)]
pub enum ConnectionState {
    /// No connection was made yet.
    NotConnected,
    /// A device is connected.
    Connected,
    /// The device was connected and was lost.
    Disconnected,
    /// An attempt to reconnect is held back until the cooldown is over.
    Cooldown,
}

impl Default for ConnectionState {
    fn default() -> (state: Self)
        ensures
            state == ConnectionState::NotConnected,
    {
        ConnectionState::NotConnected
    }
}

/// What is to be done for a haptic event.
#[derive(Debug, Clone, Copy, PartialEq, Eq)]
pub enum EmitAction {
    /// Nothing: feedback is disabled, no capable device is connected, or the
    /// event is suppressed.
    Nothing,
    /// Play a waveform: drain the channel, write `frame`, wait for no reply,
    /// and report with [`HapticManager::complete_waveform`], handing back
    /// `started_ms`.
    Waveform { frame: [u8; 7], started_ms: u64 },
    /// Fall back to legacy pulses: perform the steps of `pattern`, asking
    /// [`HapticManager::pulse`] for each pulse and calling
    /// [`HapticManager::resume_pattern`] after each gap.
    LegacyPattern { pulse: HapticPulse, pattern: HapticPattern },
}

/// What is to be done about a lost connection.
#[derive(Debug, Clone, Copy, PartialEq, Eq, Structural)]
pub enum ReconnectAction {
    /// Nothing. The value says whether a device is connected.
    Done(bool),
    /// Try once to discover and open the device, and report with
    /// [`HapticManager::finish_reconnect`].
    OpenDevice,
}

/// Time elapsed from `since` to `now`; zero where the clock went backwards.
pub open spec fn spec_elapsed(now: u64, since: u64) -> u64 {
    if now >= since {
        (now - since) as u64
    } else {
        0
    }
}

/// Time elapsed from `since` to `now`; zero where the clock went backwards.
#[verifier::when_used_as_spec(spec_elapsed)]
pub fn elapsed(now: u64, since: u64) -> (ms: u64)
    ensures
        ms == spec_elapsed(now, since),
{
    if now >= since {
        now - since
    } else {
        0
    }
}

/// What a device that may have been opened is known to be.
pub open spec fn device_model(device: Option<HidppDevice>) -> Option<DeviceModel> {
    match device {
        Some(d) => Some(d@),
        None => None,
    }
}

/// The state of the controller.
pub struct ManagerModel {
    /// The session with the connected device, if there is one.
    pub device: Option<DeviceModel>,
    /// The default waveform.
    pub default_pattern: Mx4HapticPattern,
    /// The waveform for each event.
    pub per_event: PerEventPattern,
    /// Whether haptic feedback is enabled.
    pub enabled: bool,
    /// When the last pulse was sent.
    pub last_pulse_ms: u64,
    /// Where the connection stands.
    pub connection_state: ConnectionState,
    /// When the connection was lost, or an attempt to reconnect failed.
    pub last_disconnect_ms: u64,
    /// Minimum time between two pulses.
    pub debounce_ms: u64,
    /// Minimum time between two slice-change pulses.
    pub slice_debounce_ms: u64,
    /// Window in which re-entering the same slice gives no pulse.
    pub reentry_debounce_ms: u64,
    /// When the last slice change was answered with a pulse.
    pub last_slice_change_ms: u64,
    /// The slice that was entered last, if any.
    pub last_slice_index: Option<u8>,
}

impl ManagerModel {
    /// The invariant of the controller. A connected controller has a session,
    /// a controller that lost its device has none, and the session meets its
    /// own invariant.
    pub open spec fn wf(self) -> bool {
        &&& self.connection_state == ConnectionState::Connected ==> self.device is Some
        &&& self.connection_state == ConnectionState::Disconnected ==> self.device is None
        &&& self.connection_state == ConnectionState::Cooldown ==> self.device is None
        &&& self.device matches Some(d) ==> d.wf()
    }

    /// A controller without a device, with default settings.
    pub open spec fn new(enabled: bool) -> ManagerModel {
        ManagerModel {
            device: None,
            default_pattern: Mx4HapticPattern::SubtleCollision,
            per_event: PerEventPattern::spec_default(),
            enabled,
            last_pulse_ms: 0,
            connection_state: ConnectionState::NotConnected,
            last_disconnect_ms: 0,
            debounce_ms: DEFAULT_DEBOUNCE_MS,
            slice_debounce_ms: DEFAULT_SLICE_DEBOUNCE_MS,
            reentry_debounce_ms: DEFAULT_REENTRY_DEBOUNCE_MS,
            last_slice_change_ms: 0,
            last_slice_index: None,
        }
    }

    /// The controller with the settings of a configuration. Waveform names
    /// are resolved; a name that no waveform has resolves to the fallback.
    pub open spec fn configured(self, config: HapticConfig) -> ManagerModel {
        ManagerModel {
            default_pattern: Mx4HapticPattern::spec_from_name(config.default_pattern@),
            per_event: PerEventPattern {
                menu_appear: Mx4HapticPattern::spec_from_name(config.per_event.menu_appear@),
                slice_change: Mx4HapticPattern::spec_from_name(config.per_event.slice_change@),
                confirm: Mx4HapticPattern::spec_from_name(config.per_event.confirm@),
                invalid: Mx4HapticPattern::spec_from_name(config.per_event.invalid@),
            },
            enabled: config.enabled,
            debounce_ms: config.debounce_ms,
            slice_debounce_ms: config.slice_debounce_ms,
            reentry_debounce_ms: config.reentry_debounce_ms,
            ..self
        }
    }

    /// Whether haptic feedback can be given: a device with a haptic motor is
    /// connected.
    pub open spec fn is_available(self) -> bool {
        self.device matches Some(d) && d.haptic_supported()
    }

    /// Whether a pulse at `now_ms` may be sent: feedback is enabled, a
    /// capable device is connected, and the last pulse lies at least the
    /// debounce time back.
    pub open spec fn may_pulse(self, now_ms: u64) -> bool {
        &&& self.enabled
        &&& self.is_available()
        &&& spec_elapsed(now_ms, self.last_pulse_ms) >= self.debounce_ms
    }

    /// What is to be done for `event` at `now_ms`. Where a pulse may be sent,
    /// a device with waveform playback gets the waveform configured for the
    /// event, and any other device the event's legacy pattern.
    pub open spec fn emit(self, event: HapticEvent, now_ms: u64) -> EmitAction {
        if !self.may_pulse(now_ms) {
            EmitAction::Nothing
        } else {
            let device = self.device.unwrap();
            match device.waveform_frame(self.per_event.spec_get(&event)) {
                Some(frame) => EmitAction::Waveform { frame, started_ms: now_ms },
                None => EmitAction::LegacyPattern {
                    pulse: HapticPulse {
                        intensity: LEGACY_INTENSITY,
                        duration_ms: event.spec_base_profile().duration_ms,
                    },
                    pattern: event.spec_pattern(),
                },
            }
        }
    }

    /// The controller after the device was lost at `now_ms`.
    pub open spec fn handle_disconnect(self, now_ms: u64) -> ManagerModel {
        ManagerModel {
            device: None,
            connection_state: ConnectionState::Disconnected,
            last_disconnect_ms: now_ms,
            ..self
        }
    }

    /// The controller after a waveform was written, or failed to be written.
    /// A waveform that was written counts as a pulse at the time the event
    /// was taken; a failed write loses the device at `now_ms`.
    pub open spec fn complete_waveform(self, started_ms: u64, written: bool, now_ms: u64)
        -> ManagerModel {
        if written {
            ManagerModel { last_pulse_ms: started_ms, ..self }
        } else {
            self.handle_disconnect(now_ms)
        }
    }

    /// The controller after an exchange ended at `now_ms`: a failed read or
    /// write loses the device, every other ending changes nothing.
    pub open spec fn exchange_finished(self, io_failure: bool, now_ms: u64) -> ManagerModel {
        if io_failure && self.device is Some {
            self.handle_disconnect(now_ms)
        } else {
            self
        }
    }

    /// The controller after a legacy pulse was asked for at `now_ms`, and the
    /// request to exchange for it. Where a pulse may be sent it counts as
    /// sent at `now_ms`, also on a device without legacy force feedback, for
    /// which there is no request.
    pub open spec fn pulse(self, haptic: HapticPulse, now_ms: u64) -> (
        ManagerModel,
        Option<HidppRequest>,
    ) {
        if !self.may_pulse(now_ms) {
            (self, None)
        } else {
            (
                ManagerModel { last_pulse_ms: now_ms, ..self },
                self.device.unwrap().pulse_request(haptic.intensity, haptic.duration_ms),
            )
        }
    }

    /// The controller after a gap within a pulse pattern: the debounce timer
    /// is reset, so that the pattern's next pulse is not suppressed by the
    /// pattern's last.
    pub open spec fn resume_pattern(self) -> ManagerModel {
        ManagerModel { last_pulse_ms: 0, ..self }
    }

    /// The controller after the cursor entered slice `slice_index` at
    /// `now_ms`, whether the slice change passed both filters, and what is to
    /// be done for it.
    ///
    /// Re-entry: the slice that was entered last, entered again within the
    /// re-entry window, changes nothing. Rapid movement: any other entry
    /// within the slice debounce time is noted and gives no pulse. Every
    /// other entry is noted, timed, and handed on as a slice-change event.
    pub open spec fn emit_slice_change(self, slice_index: u8, now_ms: u64) -> (
        ManagerModel,
        bool,
        EmitAction,
    ) {
        let since_last = spec_elapsed(now_ms, self.last_slice_change_ms);
        if !self.enabled {
            (self, false, EmitAction::Nothing)
        } else if self.last_slice_index == Some(slice_index) && since_last
            < self.reentry_debounce_ms {
            (self, false, EmitAction::Nothing)
        } else if since_last < self.slice_debounce_ms {
            (
                ManagerModel { last_slice_index: Some(slice_index), ..self },
                false,
                EmitAction::Nothing,
            )
        } else {
            let entered = ManagerModel {
                last_slice_change_ms: now_ms,
                last_slice_index: Some(slice_index),
                ..self
            };
            (entered, true, entered.emit(HapticEvent::SliceChange, now_ms))
        }
    }

    /// The controller with no slice remembered.
    pub open spec fn reset_slice_tracking(self) -> ManagerModel {
        ManagerModel { last_slice_index: None, last_slice_change_ms: 0, ..self }
    }

    /// The controller after an attempt to open the device: connected to the
    /// opened device, or not connected where none was opened. A session that
    /// the controller had before a failed attempt stays.
    pub open spec fn connect(self, opened: Option<DeviceModel>) -> ManagerModel {
        match opened {
            Some(device) => ManagerModel {
                device: Some(device),
                connection_state: ConnectionState::Connected,
                ..self
            },
            None => ManagerModel { connection_state: ConnectionState::NotConnected, ..self },
        }
    }

    /// Whether the connection was lost and not yet restored.
    pub open spec fn lost(self) -> bool {
        self.connection_state == ConnectionState::Disconnected || self.connection_state
            == ConnectionState::Cooldown
    }

    /// The controller after it was asked at `now_ms` to reconnect if needed,
    /// and what is to be done. A controller that did not lose its device has
    /// nothing to do. One that lost it waits until the cooldown is over, and
    /// asks for one attempt to open the device once it is.
    pub open spec fn reconnect_if_needed(self, now_ms: u64) -> (ManagerModel, ReconnectAction) {
        if !self.lost() {
            (self, ReconnectAction::Done(self.connection_state == ConnectionState::Connected))
        } else if spec_elapsed(now_ms, self.last_disconnect_ms) < RECONNECT_COOLDOWN_MS {
            (
                ManagerModel { connection_state: ConnectionState::Cooldown, ..self },
                ReconnectAction::Done(false),
            )
        } else {
            (self, ReconnectAction::OpenDevice)
        }
    }

    /// The controller after the attempt to reconnect that was asked for at
    /// `attempted_ms`: connected, or without a session and cooling down from
    /// `attempted_ms` on.
    pub open spec fn finish_reconnect(self, opened: Option<DeviceModel>, attempted_ms: u64)
        -> ManagerModel {
        match opened {
            Some(_) => self.connect(opened),
            None => ManagerModel {
                device: None,
                connection_state: ConnectionState::Cooldown,
                last_disconnect_ms: attempted_ms,
                ..self
            },
        }
    }
}

/// The haptic feedback controller.
pub struct HapticManager {
    device: Option<HidppDevice>,
    default_pattern: Mx4HapticPattern,
    per_event: PerEventPattern,
    enabled: bool,
    last_pulse_ms: u64,
    connection_state: ConnectionState,
    last_disconnect_ms: u64,
    debounce_ms: u64,
    slice_debounce_ms: u64,
    reentry_debounce_ms: u64,
    last_slice_change_ms: u64,
    last_slice_index: Option<u8>,
}

impl View for HapticManager {
    type V = ManagerModel;

    closed spec fn view(&self) -> ManagerModel {
        ManagerModel {
            device: device_model(self.device),
            default_pattern: self.default_pattern,
            per_event: self.per_event,
            enabled: self.enabled,
            last_pulse_ms: self.last_pulse_ms,
            connection_state: self.connection_state,
            last_disconnect_ms: self.last_disconnect_ms,
            debounce_ms: self.debounce_ms,
            slice_debounce_ms: self.slice_debounce_ms,
            reentry_debounce_ms: self.reentry_debounce_ms,
            last_slice_change_ms: self.last_slice_change_ms,
            last_slice_index: self.last_slice_index,
        }
    }
}

impl HapticManager {
    /// Every controller meets the invariant of its model.
    #[verifier::type_invariant]
    pub open spec fn inv(&self) -> bool {
        self@.wf()
    }

    /// Creates a controller without a device.
    pub fn new(enabled: bool) -> (manager: HapticManager)
        ensures
            manager@ == ManagerModel::new(enabled),
    {
        HapticManager {
            device: None,
            default_pattern: Mx4HapticPattern::SubtleCollision,
            per_event: PerEventPattern::default(),
            enabled,
            last_pulse_ms: 0,
            connection_state: ConnectionState::NotConnected,
            last_disconnect_ms: 0,
            debounce_ms: DEFAULT_DEBOUNCE_MS,
            slice_debounce_ms: DEFAULT_SLICE_DEBOUNCE_MS,
            reentry_debounce_ms: DEFAULT_REENTRY_DEBOUNCE_MS,
            last_slice_change_ms: 0,
            last_slice_index: None,
        }
    }

    /// Creates a controller without a device from a configuration.
    pub fn from_config(config: &HapticConfig) -> (manager: HapticManager)
        ensures
            manager@ == ManagerModel::new(config.enabled).configured(*config),
    {
        HapticManager {
            device: None,
            default_pattern: Mx4HapticPattern::from_name(config.default_pattern.as_str()),
            per_event: PerEventPattern {
                menu_appear: Mx4HapticPattern::from_name(config.per_event.menu_appear.as_str()),
                slice_change: Mx4HapticPattern::from_name(config.per_event.slice_change.as_str()),
                confirm: Mx4HapticPattern::from_name(config.per_event.confirm.as_str()),
                invalid: Mx4HapticPattern::from_name(config.per_event.invalid.as_str()),
            },
            enabled: config.enabled,
            last_pulse_ms: 0,
            connection_state: ConnectionState::NotConnected,
            last_disconnect_ms: 0,
            debounce_ms: config.debounce_ms,
            slice_debounce_ms: config.slice_debounce_ms,
            reentry_debounce_ms: config.reentry_debounce_ms,
            last_slice_change_ms: 0,
            last_slice_index: None,
        }
    }

    /// Takes over the settings of a configuration. The connection and the
    /// timers stay as they are.
    pub fn update_from_config(&mut self, config: &HapticConfig)
        ensures
            final(self)@ == old(self)@.configured(*config),
    {
        proof {
            use_type_invariant(&*self);
        }
        self.default_pattern = Mx4HapticPattern::from_name(config.default_pattern.as_str());
        self.per_event = PerEventPattern {
            menu_appear: Mx4HapticPattern::from_name(config.per_event.menu_appear.as_str()),
            slice_change: Mx4HapticPattern::from_name(config.per_event.slice_change.as_str()),
            confirm: Mx4HapticPattern::from_name(config.per_event.confirm.as_str()),
            invalid: Mx4HapticPattern::from_name(config.per_event.invalid.as_str()),
        };
        self.enabled = config.enabled;
        self.debounce_ms = config.debounce_ms;
        self.slice_debounce_ms = config.slice_debounce_ms;
        self.reentry_debounce_ms = config.reentry_debounce_ms;
    }

    /// Takes the outcome of an attempt to discover and open the device: the
    /// open session, or `None` where no compatible device was found. The
    /// answer is whether a device was connected. A missing device is no
    /// error: haptic feedback is optional.
    pub fn connect(&mut self, opened: Option<HidppDevice>) -> (connected: Result<bool, HapticError>)
        ensures
            final(self)@ == old(self)@.connect(device_model(opened)),
            connected == Ok::<bool, HapticError>(opened is Some),
    {
        proof {
            use_type_invariant(&*self);
        }
        match opened {
            Some(device) => {
                proof {
                    use_type_invariant(&device);
                }
                self.connection_state = ConnectionState::NotConnected;
                self.device = Some(device);
                self.connection_state = ConnectionState::Connected;
                Ok(true)
            },
            None => {
                self.connection_state = ConnectionState::NotConnected;
                Ok(false)
            },
        }
    }

    /// Drops the session after the device was lost at `now_ms`, and starts
    /// the cooldown.
    pub fn handle_disconnect(&mut self, now_ms: u64)
        ensures
            final(self)@ == old(self)@.handle_disconnect(now_ms),
    {
        proof {
            use_type_invariant(&*self);
        }
        self.connection_state = ConnectionState::NotConnected;
        self.device = None;
        self.connection_state = ConnectionState::Disconnected;
        self.last_disconnect_ms = now_ms;
    }

    /// Decides at `now_ms` whether to try to reconnect.
    pub fn reconnect_if_needed(&mut self, now_ms: u64) -> (action: ReconnectAction)
        ensures
            (final(self)@, action) == old(self)@.reconnect_if_needed(now_ms),
    {
        proof {
            use_type_invariant(&*self);
        }
        if self.connection_state != ConnectionState::Disconnected && self.connection_state
            != ConnectionState::Cooldown {
            return ReconnectAction::Done(self.connection_state == ConnectionState::Connected);
        }
        if elapsed(now_ms, self.last_disconnect_ms) < RECONNECT_COOLDOWN_MS {
            self.connection_state = ConnectionState::Cooldown;
            return ReconnectAction::Done(false);
        }
        ReconnectAction::OpenDevice
    }

    /// Takes the outcome of the attempt to reconnect that
    /// [`HapticManager::reconnect_if_needed`] asked for at `attempted_ms`.
    /// The answer is whether the device is connected again.
    pub fn finish_reconnect(&mut self, opened: Option<HidppDevice>, attempted_ms: u64) -> (connected:
        bool)
        ensures
            final(self)@ == old(self)@.finish_reconnect(device_model(opened), attempted_ms),
            connected == opened is Some,
    {
        proof {
            use_type_invariant(&*self);
        }
        match opened {
            Some(device) => {
                let _ = self.connect(Some(device));
                true
            },
            None => {
                self.connection_state = ConnectionState::NotConnected;
                self.device = None;
                self.connection_state = ConnectionState::Cooldown;
                self.last_disconnect_ms = attempted_ms;
                false
            },
        }
    }

    /// Where the connection stands.
    pub fn connection_state(&self) -> (state: ConnectionState)
        ensures
            state == self@.connection_state,
    {
        self.connection_state
    }

    /// Whether haptic feedback can be given.
    pub fn is_available(&self) -> (available: bool)
        ensures
            available == self@.is_available(),
    {
        match &self.device {
            Some(device) => device.haptic_supported(),
            None => false,
        }
    }

    /// Whether the controller holds a session.
    pub fn has_device(&self) -> (present: bool)
        ensures
            present == self@.device is Some,
    {
        self.device.is_some()
    }

    /// The device index to stamp on requests, where a session is held.
    pub fn device_index(&self) -> (index: Option<u8>)
        ensures
            index == (match self@.device {
                Some(d) => Some(d.device_index),
                None => None,
            }),
    {
        match &self.device {
            Some(device) => Some(device.device_index()),
            None => None,
        }
    }

    fn may_pulse(&self, now_ms: u64) -> (allowed: bool)
        ensures
            allowed == self@.may_pulse(now_ms),
    {
        self.enabled && self.is_available() && elapsed(now_ms, self.last_pulse_ms)
            >= self.debounce_ms
    }

    /// Asks for one legacy pulse at `now_ms`. The answer is the request to
    /// exchange, or `None` where nothing is to be sent. The reply to the
    /// request carries no information; how the exchange ended is reported
    /// with [`HapticManager::exchange_finished`].
    pub fn pulse(&mut self, haptic: HapticPulse, now_ms: u64) -> (request: Option<HidppRequest>)
        ensures
            (final(self)@, request) == old(self)@.pulse(haptic, now_ms),
    {
        proof {
            use_type_invariant(&*self);
        }
        if !self.may_pulse(now_ms) {
            return None;
        }
        self.last_pulse_ms = now_ms;
        match &self.device {
            Some(device) => device.send_haptic_pulse(haptic.intensity, haptic.duration_ms),
            None => None,
        }
    }

    /// Resets the debounce timer after a gap within a pulse pattern.
    pub fn resume_pattern(&mut self)
        ensures
            final(self)@ == old(self)@.resume_pattern(),
    {
        proof {
            use_type_invariant(&*self);
        }
        self.last_pulse_ms = 0;
    }

    /// Decides what is to be done for `event` at `now_ms`. The call itself
    /// changes nothing and cannot fail: a failure of the device is absorbed
    /// when it is reported.
    pub fn emit(&self, event: HapticEvent, now_ms: u64) -> (action: EmitAction)
        ensures
            action == self@.emit(event, now_ms),
    {
        if !self.may_pulse(now_ms) {
            return EmitAction::Nothing;
        }
        match &self.device {
            Some(device) => {
                match device.send_haptic_pattern(self.per_event.get(&event)) {
                    Some(frame) => EmitAction::Waveform { frame, started_ms: now_ms },
                    None => EmitAction::LegacyPattern {
                        pulse: HapticPulse {
                            intensity: LEGACY_INTENSITY,
                            duration_ms: event.base_profile().duration_ms,
                        },
                        pattern: event.pattern(),
                    },
                }
            },
            None => EmitAction::Nothing,
        }
    }

    /// Decides what is to be done for `event` at `now_ms`, for a caller that
    /// does not wait for the feedback to end. The decision is that of
    /// [`HapticManager::emit`].
    pub fn emit_async(&self, event: HapticEvent, now_ms: u64) -> (action: EmitAction)
        ensures
            action == self@.emit(event, now_ms),
    {
        self.emit(event, now_ms)
    }

    /// Takes the outcome of writing a waveform frame: `started_ms` as the
    /// action gave it, whether the frame was written, and the time of the
    /// report.
    pub fn complete_waveform(&mut self, started_ms: u64, written: bool, now_ms: u64)
        ensures
            final(self)@ == old(self)@.complete_waveform(started_ms, written, now_ms),
    {
        proof {
            use_type_invariant(&*self);
        }
        if written {
            self.last_pulse_ms = started_ms;
        } else {
            self.handle_disconnect(now_ms);
        }
    }

    /// Takes the outcome of an exchange that ended at `now_ms`. A failed read
    /// or write loses the device; the failure goes no further.
    pub fn exchange_finished(&mut self, outcome: &ExchangeOutcome, now_ms: u64)
        ensures
            final(self)@ == old(self)@.exchange_finished(outcome.spec_is_io_failure(), now_ms),
    {
        if outcome.is_io_failure() && self.device.is_some() {
            self.handle_disconnect(now_ms);
        }
    }

    /// Takes note that the cursor entered slice `slice_index` at `now_ms`.
    /// The answer is whether the slice change passed the re-entry filter and
    /// the rapid-movement filter, and what is to be done for it.
    pub fn emit_slice_change(&mut self, slice_index: u8, now_ms: u64) -> (outcome: (
        bool,
        EmitAction,
    ))
        ensures
            (final(self)@, outcome.0, outcome.1) == old(self)@.emit_slice_change(
                slice_index,
                now_ms,
            ),
    {
        proof {
            use_type_invariant(&*self);
        }
        if !self.enabled {
            return (false, EmitAction::Nothing);
        }
        let since_last: u64 = elapsed(now_ms, self.last_slice_change_ms);
        match self.last_slice_index {
            Some(last_slice) => {
                if last_slice == slice_index && since_last < self.reentry_debounce_ms {
                    return (false, EmitAction::Nothing);
                }
            },
            None => {},
        }
        if since_last < self.slice_debounce_ms {
            self.last_slice_index = Some(slice_index);
            return (false, EmitAction::Nothing);
        }
        self.last_slice_change_ms = now_ms;
        self.last_slice_index = Some(slice_index);
        (true, self.emit(HapticEvent::SliceChange, now_ms))
    }

    /// Forgets the slice that was entered last. To be called when the menu is
    /// dismissed or a new menu opens.
    pub fn reset_slice_tracking(&mut self)
        ensures
            final(self)@ == old(self)@.reset_slice_tracking(),
    {
        proof {
            use_type_invariant(&*self);
        }
        self.last_slice_index = None;
        self.last_slice_change_ms = 0;
    }

    /// When the last slice change passed the filters; zero before the first.
    pub fn last_slice_change_ms(&self) -> (ms: u64)
        ensures
            ms == self@.last_slice_change_ms,
    {
        self.last_slice_change_ms
    }

    /// When the last pulse was sent; zero before the first.
    pub fn last_pulse_ms(&self) -> (ms: u64)
        ensures
            ms == self@.last_pulse_ms,
    {
        self.last_pulse_ms
    }

    /// The waveform configured for each event.
    pub fn per_event(&self) -> (patterns: PerEventPattern)
        ensures
            patterns == self@.per_event,
    {
        self.per_event
    }

    /// The slice that was entered last, if any.
    pub fn last_slice_index(&self) -> (slice: Option<u8>)
        ensures
            slice == self@.last_slice_index,
    {
        self.last_slice_index
    }

    /// Minimum time between two slice-change pulses, in milliseconds.
    pub fn slice_debounce_ms(&self) -> (ms: u64)
        ensures
            ms == self@.slice_debounce_ms,
    {
        self.slice_debounce_ms
    }

    /// The re-entry window in milliseconds.
    pub fn reentry_debounce_ms(&self) -> (ms: u64)
        ensures
            ms == self@.reentry_debounce_ms,
    {
        self.reentry_debounce_ms
    }

    /// Minimum time between two pulses, in milliseconds.
    pub fn debounce_ms(&self) -> (ms: u64)
        ensures
            ms == self@.debounce_ms,
    {
        self.debounce_ms
    }

    /// Sets the minimum time between two slice-change pulses.
    pub fn set_slice_debounce_ms(&mut self, ms: u64)
        ensures
            final(self)@ == (ManagerModel { slice_debounce_ms: ms, ..old(self)@ }),
    {
        proof {
            use_type_invariant(&*self);
        }
        self.slice_debounce_ms = ms;
    }

    /// Sets the re-entry window.
    pub fn set_reentry_debounce_ms(&mut self, ms: u64)
        ensures
            final(self)@ == (ManagerModel { reentry_debounce_ms: ms, ..old(self)@ }),
    {
        proof {
            use_type_invariant(&*self);
        }
        self.reentry_debounce_ms = ms;
    }

    /// Enables or disables haptic feedback.
    pub fn set_enabled(&mut self, enabled: bool)
        ensures
            final(self)@ == (ManagerModel { enabled, ..old(self)@ }),
    {
        proof {
            use_type_invariant(&*self);
        }
        self.enabled = enabled;
    }

    /// Sets the minimum time between two pulses.
    pub fn set_debounce_ms(&mut self, ms: u64)
        ensures
            final(self)@ == (ManagerModel { debounce_ms: ms, ..old(self)@ }),
    {
        proof {
            use_type_invariant(&*self);
        }
        self.debounce_ms = ms;
    }

    /// Whether haptic feedback is enabled.
    pub fn is_enabled(&self) -> (enabled: bool)
        ensures
            enabled == self@.enabled,
    {
        self.enabled
    }

    /// The default waveform.
    pub fn default_pattern(&self) -> (pattern: Mx4HapticPattern)
        ensures
            pattern == self@.default_pattern,
    {
        self.default_pattern
    }

    /// Whether the connected device has an adjustable DPI; `false` without a
    /// device.
    pub fn dpi_supported(&self) -> (supported: bool)
        ensures
            supported == (self@.device matches Some(d) && d.dpi_index is Some),
    {
        match &self.device {
            Some(device) => device.dpi_supported(),
            None => false,
        }
    }

    /// The request that reads the current DPI. Without a device there is none
    /// and the device counts as not found; without an adjustable DPI there
    /// is none and the capability counts as not supported.
    pub fn get_dpi_request(&self) -> (request: Result<HidppRequest, HapticError>)
        ensures
            request == (match self@.device {
                Some(d) => d.get_dpi_request(),
                None => Err(HapticError::DeviceNotFound),
            }),
    {
        match &self.device {
            Some(device) => device.get_dpi_request(),
            None => Err(HapticError::DeviceNotFound),
        }
    }

    /// The current DPI, by the reply to [`HapticManager::get_dpi_request`].
    /// Where the exchange cost the session, the exchange failed.
    pub fn get_dpi(&self, reply: &Option<Vec<u8>>) -> (dpi: Result<u16, HapticError>)
        ensures
            dpi == (match self@.device {
                Some(d) => d.get_dpi(reply_bytes(*reply)),
                None => Err(HapticError::CommunicationError),
            }),
    {
        match &self.device {
            Some(device) => device.get_dpi(reply),
            None => Err(HapticError::CommunicationError),
        }
    }

    /// The request that sets the DPI. Without a device there is none and the
    /// device counts as not found; without an adjustable DPI there is none
    /// and the capability counts as not supported.
    pub fn set_dpi_request(&self, dpi: u16) -> (request: Result<HidppRequest, HapticError>)
        ensures
            request == (match self@.device {
                Some(d) => d.set_dpi_request(dpi),
                None => Err(HapticError::DeviceNotFound),
            }),
    {
        match &self.device {
            Some(device) => device.set_dpi_request(dpi),
            None => Err(HapticError::DeviceNotFound),
        }
    }

    /// How setting the DPI ended, by the reply to
    /// [`HapticManager::set_dpi_request`]. Where the exchange cost the
    /// session, the exchange failed.
    pub fn set_dpi(&self, reply: &Option<Vec<u8>>) -> (outcome: Result<(), HapticError>)
        ensures
            outcome == (match self@.device {
                Some(d) => d.set_dpi(reply_bytes(*reply)),
                None => Err(HapticError::CommunicationError),
            }),
    {
        match &self.device {
            Some(device) => device.set_dpi(reply),
            None => Err(HapticError::CommunicationError),
        }
    }

    /// The request that lists the supported DPI values. Without a device
    /// there is none and the device counts as not found; without an
    /// adjustable DPI there is none and the capability counts as not
    /// supported.
    pub fn get_dpi_list_request(&self) -> (request: Result<HidppRequest, HapticError>)
        ensures
            request == (match self@.device {
                Some(d) => d.get_dpi_list_request(),
                None => Err(HapticError::DeviceNotFound),
            }),
    {
        match &self.device {
            Some(device) => device.get_dpi_list_request(),
            None => Err(HapticError::DeviceNotFound),
        }
    }

    /// The supported DPI values, by the reply to
    /// [`HapticManager::get_dpi_list_request`]. Where the exchange cost the
    /// session, the exchange failed.
    pub fn get_dpi_list(&self, reply: &Option<Vec<u8>>) -> (list: Result<Vec<u16>, HapticError>)
        ensures
            list matches Ok(values) ==> self@.device matches Some(d) && d.get_dpi_list(
                reply_bytes(*reply),
            ) == Ok::<Seq<u16>, HapticError>(values@),
            list matches Err(e) ==> e == (match self@.device {
                Some(d) => d.get_dpi_list(reply_bytes(*reply))->Err_0,
                None => HapticError::CommunicationError,
            }),
            list is Err <==> !(self@.device matches Some(d) && d.get_dpi_list(
                reply_bytes(*reply),
            ) is Ok),
    {
        match &self.device {
            Some(device) => device.get_dpi_list(reply),
            None => Err(HapticError::CommunicationError),
        }
    }
}

impl Default for HapticManager {
    fn default() -> (manager: Self)
        ensures
            manager@ == ManagerModel::new(true),
    {
        Self::new(true)
    }
}

/// Debounce: a pulse that was sent suppresses every event that follows
/// within the debounce time. Where the first of two events asked for its
/// waveform to be written, the second asks for nothing, whether the write
/// went through or cost the device: the two calls together make one device
/// write. The same holds after a legacy pulse.
pub proof fn lemma_debounce_suppresses(
    manager: ManagerModel,
    first: HapticEvent,
    second: HapticEvent,
    pulse: HapticPulse,
    first_ms: u64,
    second_ms: u64,
    written: bool,
    report_ms: u64,
)
    requires
        spec_elapsed(second_ms, first_ms) < manager.debounce_ms,
    ensures
        manager.emit(first, first_ms) matches EmitAction::Waveform { started_ms, .. }
            ==> manager.complete_waveform(started_ms, written, report_ms).emit(second, second_ms)
            == EmitAction::Nothing,
        manager.may_pulse(first_ms) ==> manager.pulse(pulse, first_ms).0.emit(second, second_ms)
            == EmitAction::Nothing,
        manager.may_pulse(first_ms) ==> manager.pulse(pulse, first_ms).0.pulse(pulse, second_ms).1
            is None,
{
}

/// A pulse pattern does not suppress itself: after a pulse and the reset that
/// follows the pattern's gap, the next pulse of the pattern is sent with the
/// same request, however short the gap, on any clock that has run for at
/// least the debounce time.
pub proof fn lemma_pattern_is_not_self_suppressed(
    manager: ManagerModel,
    pulse: HapticPulse,
    first_ms: u64,
    second_ms: u64,
)
    requires
        manager.may_pulse(first_ms),
        second_ms >= manager.debounce_ms,
    ensures
        ({
            let (after_first, first_request) = manager.pulse(pulse, first_ms);
            let (after_second, second_request) = after_first.resume_pattern().pulse(
                pulse,
                second_ms,
            );
            &&& second_request == first_request
            &&& after_second.last_pulse_ms == second_ms
        }),
{
}

/// Slice re-entry: the same slice, entered twice within the re-entry window,
/// is answered at most once. Where the first entry passed the filters, the
/// second changes nothing and asks for nothing.
pub proof fn lemma_slice_reentry_suppressed(
    manager: ManagerModel,
    slice_index: u8,
    first_ms: u64,
    second_ms: u64,
)
    requires
        spec_elapsed(second_ms, first_ms) < manager.reentry_debounce_ms,
    ensures
        ({
            let (entered, first_passed, _) = manager.emit_slice_change(slice_index, first_ms);
            let (after, second_passed, second_action) = entered.emit_slice_change(
                slice_index,
                second_ms,
            );
            &&& !(first_passed && second_passed)
            &&& first_passed ==> after == entered && second_action == EmitAction::Nothing
        }),
{
}

/// Rapid movement: after a slice change that passed the filters, another
/// slice entered within the slice debounce time is remembered and asks for
/// nothing; the same slice entered again once both the slice debounce time
/// and the re-entry window are over passes the filters.
pub proof fn lemma_rapid_movement_keeps_last_slice(
    manager: ManagerModel,
    first_slice: u8,
    next_slice: u8,
    first_ms: u64,
    second_ms: u64,
    third_ms: u64,
)
    requires
        first_slice != next_slice,
        manager.emit_slice_change(first_slice, first_ms).1,
        spec_elapsed(second_ms, first_ms) < manager.slice_debounce_ms,
        spec_elapsed(third_ms, first_ms) >= manager.slice_debounce_ms,
        spec_elapsed(third_ms, first_ms) >= manager.reentry_debounce_ms,
    ensures
        ({
            let entered = manager.emit_slice_change(first_slice, first_ms).0;
            let (moved, second_passed, second_action) = entered.emit_slice_change(
                next_slice,
                second_ms,
            );
            let (settled, third_passed, third_action) = moved.emit_slice_change(
                next_slice,
                third_ms,
            );
            &&& !second_passed
            &&& second_action == EmitAction::Nothing
            &&& moved == (ManagerModel { last_slice_index: Some(next_slice), ..entered })
            &&& third_passed
            &&& third_action == settled.emit(HapticEvent::SliceChange, third_ms)
            &&& settled.last_slice_change_ms == third_ms
            &&& settled.last_slice_index == Some(next_slice)
        }),
{
}

/// Reconnection: after the device was lost, a call before the cooldown is
/// over answers `false`, asks for no attempt to open the device, and leaves
/// the controller cooling down. A call once the cooldown is over asks for
/// exactly one attempt and changes nothing until the attempt is reported.
pub proof fn lemma_reconnect_waits_for_cooldown(manager: ManagerModel, lost_ms: u64, now_ms: u64)
    ensures
        ({
            let lost = manager.handle_disconnect(lost_ms);
            let (next, action) = lost.reconnect_if_needed(now_ms);
            let (again, repeated) = next.reconnect_if_needed(now_ms);
            if spec_elapsed(now_ms, lost_ms) < RECONNECT_COOLDOWN_MS {
                &&& action == ReconnectAction::Done(false)
                &&& next == (ManagerModel { connection_state: ConnectionState::Cooldown, ..lost })
                &&& repeated == ReconnectAction::Done(false)
                &&& again == next
            } else {
                &&& action == ReconnectAction::OpenDevice
                &&& next == lost
            }
        }),
{
}

/// A reconnection that brought the device back is the end of it: the
/// controller is connected, and the next call asks for no further attempt.
pub proof fn lemma_reconnected_asks_no_more(
    manager: ManagerModel,
    device: DeviceModel,
    attempted_ms: u64,
    now_ms: u64,
)
    ensures
        ({
            let connected = manager.finish_reconnect(Some(device), attempted_ms);
            &&& connected.connection_state == ConnectionState::Connected
            &&& connected.device == Some(device)
            &&& connected.reconnect_if_needed(now_ms) == (connected, ReconnectAction::Done(true))
        }),
{
}

/// A failed attempt to reconnect starts the cooldown anew: until it is over,
/// no further attempt is asked for.
pub proof fn lemma_failed_reconnect_cools_down(
    manager: ManagerModel,
    attempted_ms: u64,
    now_ms: u64,
)
    requires
        spec_elapsed(now_ms, attempted_ms) < RECONNECT_COOLDOWN_MS,
    ensures
        manager.finish_reconnect(None, attempted_ms).reconnect_if_needed(now_ms).1
            == ReconnectAction::Done(false),
{
}

/// With haptic feedback disabled every call is without effect, whether a
/// device is connected or not: an event and a slice change ask for nothing, a
/// pulse has no request, and the controller stays as it is.
pub proof fn lemma_disabled_is_without_effect(
    manager: ManagerModel,
    event: HapticEvent,
    pulse: HapticPulse,
    slice_index: u8,
    now_ms: u64,
)
    requires
        !manager.enabled,
    ensures
        manager.emit(event, now_ms) == EmitAction::Nothing,
        manager.pulse(pulse, now_ms) == (manager, None::<HidppRequest>),
        manager.emit_slice_change(slice_index, now_ms) == (manager, false, EmitAction::Nothing),
{
}

/// Without a capable device every event asks for nothing, and a pulse has no
/// request and leaves the controller as it is: the device is never touched.
pub proof fn lemma_no_device_no_interaction(
    manager: ManagerModel,
    event: HapticEvent,
    pulse: HapticPulse,
    now_ms: u64,
)
    requires
        !manager.is_available(),
    ensures
        manager.emit(event, now_ms) == EmitAction::Nothing,
        manager.pulse(pulse, now_ms) == (manager, None::<HidppRequest>),
{
}

/// Every transition of the controller keeps its invariant.
pub proof fn lemma_transitions_keep_wf(
    manager: ManagerModel,
    opened: Option<DeviceModel>,
    config: HapticConfig,
    pulse: HapticPulse,
    slice_index: u8,
    written: bool,
    io_failure: bool,
    started_ms: u64,
    now_ms: u64,
)
    requires
        manager.wf(),
        opened matches Some(d) ==> d.wf(),
    ensures
        ManagerModel::new(config.enabled).wf(),
        manager.configured(config).wf(),
        manager.connect(opened).wf(),
        manager.handle_disconnect(now_ms).wf(),
        manager.reconnect_if_needed(now_ms).0.wf(),
        manager.finish_reconnect(opened, now_ms).wf(),
        manager.pulse(pulse, now_ms).0.wf(),
        manager.resume_pattern().wf(),
        manager.complete_waveform(started_ms, written, now_ms).wf(),
        manager.exchange_finished(io_failure, now_ms).wf(),
        manager.emit_slice_change(slice_index, now_ms).0.wf(),
        manager.reset_slice_tracking().wf(),
{
}

} // verus!
