//! What the user configures: commands to run, and the listeners with their
//! conditions.
use crate::float::Float64;
use crate::text::str_eq;
use crate::upower::{BatteryLevel, BatteryState};
use vstd::prelude::*;

verus! {

/// The settings that hold for the whole session.
#[derive(Debug)]
pub struct MoxidleConfig {
    pub lock_cmd: Option<String>,
    pub unlock_cmd: Option<String>,
    pub before_sleep_cmd: Option<String>,
    pub after_sleep_cmd: Option<String>,
    pub ignore_dbus_inhibit: bool,
    pub ignore_systemd_inhibit: bool,
    pub ignore_audio_inhibit: bool,
}

impl Default for MoxidleConfig {
    fn default() -> (config: MoxidleConfig)
        ensures
            config.lock_cmd is None,
            config.unlock_cmd is None,
            config.before_sleep_cmd is None,
            config.after_sleep_cmd is None,
            !config.ignore_dbus_inhibit,
            !config.ignore_systemd_inhibit,
            !config.ignore_audio_inhibit,
    {
        MoxidleConfig {
            lock_cmd: None,
            unlock_cmd: None,
            before_sleep_cmd: None,
            after_sleep_cmd: None,
            ignore_dbus_inhibit: false,
            ignore_systemd_inhibit: false,
            ignore_audio_inhibit: false,
        }
    }
}

/// Something that must hold for a listener's timer to run.
#[derive(Debug, PartialEq)]
pub enum Condition {
    OnBattery,
    OnAc,
    BatteryBelow(Float64),
    BatteryAbove(Float64),
    BatteryEqual(Float64),
    BatteryLevel(BatteryLevel),
    BatteryState(BatteryState),
    /// A device named `vvvv:pppp` is plugged in.
    UsbPlugged(String),
    /// No device named `vvvv:pppp` is plugged in.
    UsbUnplugged(String),
}

impl Condition {
    /// Whether this is the condition of running on battery.
    pub fn is_on_battery(&self) -> (is: bool)
        ensures
            is == (*self is OnBattery),
    {
        matches!(self, Condition::OnBattery)
    }

    /// Whether this condition compares the battery's charge to a threshold.
    pub fn is_on_charge(&self) -> (is: bool)
        ensures
            is == (*self is BatteryBelow || *self is BatteryAbove || *self is BatteryEqual),
    {
        matches!(
            self,
            Condition::BatteryBelow(_) | Condition::BatteryAbove(_) | Condition::BatteryEqual(_)
        )
    }

    /// Whether this is a condition on what the battery is doing.
    pub fn is_on_battery_state(&self) -> (is: bool)
        ensures
            is == (*self is BatteryState),
    {
        matches!(self, Condition::BatteryState(_))
    }

    /// Whether this is a condition on the battery's level.
    pub fn is_on_battery_level(&self) -> (is: bool)
        ensures
            is == (*self is BatteryLevel),
    {
        matches!(self, Condition::BatteryLevel(_))
    }

    /// Whether this is a condition on USB devices.
    pub fn is_on_usb(&self) -> (is: bool)
        ensures
            is == (*self is UsbPlugged || *self is UsbUnplugged),
    {
        matches!(self, Condition::UsbPlugged(_) | Condition::UsbUnplugged(_))
    }
}

/// The text is not the name of a battery state.
#[derive(Clone, Copy, Debug, PartialEq, Eq, Structural)]
pub struct InvalidBatteryStateError;

/// The text is not the name of a battery level.
#[derive(Clone, Copy, Debug, PartialEq, Eq, Structural)]
pub struct InvalidBatteryLevelError;

impl BatteryState {
    /// The name by which the configuration calls the state: lower case, the
    /// words joined by underscores.
    pub open spec fn spec_config_name(self) -> Seq<char> {
        match self {
            BatteryState::Unknown => "unknown"@,
            BatteryState::Charging => "charging"@,
            BatteryState::Discharging => "discharging"@,
            BatteryState::Empty => "empty"@,
            BatteryState::FullyCharged => "fully_charged"@,
            BatteryState::PendingCharge => "pending_charge"@,
            BatteryState::PendingDischarge => "pending_discharge"@,
        }
    }

    /// The state that the configuration calls `s`.
    pub open spec fn spec_try_from(s: Seq<char>) -> Result<BatteryState, InvalidBatteryStateError> {
        if s == "unknown"@ {
            Ok(BatteryState::Unknown)
        } else if s == "charging"@ {
            Ok(BatteryState::Charging)
        } else if s == "discharging"@ {
            Ok(BatteryState::Discharging)
        } else if s == "empty"@ {
            Ok(BatteryState::Empty)
        } else if s == "fully_charged"@ {
            Ok(BatteryState::FullyCharged)
        } else if s == "pending_charge"@ {
            Ok(BatteryState::PendingCharge)
        } else if s == "pending_discharge"@ {
            Ok(BatteryState::PendingDischarge)
        } else {
            Err(InvalidBatteryStateError)
        }
    }

    /// Reads a state by the number that the configuration gives it: the
    /// number it has on the bus.
    pub fn from_index(n: u32) -> (state: Result<BatteryState, InvalidBatteryStateError>)
        ensures
            match state {
                Ok(s) => s.spec_repr() == n,
                Err(_) => n > 6,
            },
    {
        match BatteryState::from_repr(n) {
            Some(state) => Ok(state),
            None => {
                assert(n > 6) by {
                    if n <= 6 {
                        assert(BatteryState::Unknown.spec_repr() == 0);
                        assert(BatteryState::Charging.spec_repr() == 1);
                        assert(BatteryState::Discharging.spec_repr() == 2);
                        assert(BatteryState::Empty.spec_repr() == 3);
                        assert(BatteryState::FullyCharged.spec_repr() == 4);
                        assert(BatteryState::PendingCharge.spec_repr() == 5);
                        assert(BatteryState::PendingDischarge.spec_repr() == 6);
                    }
                }
                Err(InvalidBatteryStateError)
            },
        }
    }
}

impl BatteryLevel {
    /// The place of the level in the configuration's numbering, which counts
    /// the levels from 0 without gaps.
    pub open spec fn spec_index(self) -> u32 {
        match self {
            BatteryLevel::Unknown => 0,
            BatteryLevel::NoLevel => 1,
            BatteryLevel::Low => 2,
            BatteryLevel::Critical => 3,
            BatteryLevel::Normal => 4,
            BatteryLevel::High => 5,
            BatteryLevel::Full => 6,
        }
    }

    /// The level that the configuration calls `s`.
    pub open spec fn spec_try_from(s: Seq<char>) -> Result<BatteryLevel, InvalidBatteryLevelError> {
        if s == "unknown"@ {
            Ok(BatteryLevel::Unknown)
        } else if s == "none"@ {
            Ok(BatteryLevel::NoLevel)
        } else if s == "low"@ {
            Ok(BatteryLevel::Low)
        } else if s == "critical"@ {
            Ok(BatteryLevel::Critical)
        } else if s == "normal"@ {
            Ok(BatteryLevel::Normal)
        } else if s == "high"@ {
            Ok(BatteryLevel::High)
        } else if s == "full"@ {
            Ok(BatteryLevel::Full)
        } else {
            Err(InvalidBatteryLevelError)
        }
    }

    /// Reads a level by the number that the configuration gives it.
    pub fn from_index(n: u32) -> (level: Result<BatteryLevel, InvalidBatteryLevelError>)
        ensures
            match level {
                Ok(l) => l.spec_index() == n,
                Err(_) => n > 6,
            },
    {
        match n {
            0 => Ok(BatteryLevel::Unknown),
            1 => Ok(BatteryLevel::NoLevel),
            2 => Ok(BatteryLevel::Low),
            3 => Ok(BatteryLevel::Critical),
            4 => Ok(BatteryLevel::Normal),
            5 => Ok(BatteryLevel::High),
            6 => Ok(BatteryLevel::Full),
            _ => Err(InvalidBatteryLevelError),
        }
    }
}

impl TryFrom<&str> for BatteryState {
    type Error = InvalidBatteryStateError;

    /// Reads a state by the name that the configuration gives it.
    fn try_from(s: &str) -> (state: Result<BatteryState, InvalidBatteryStateError>) {
        if str_eq(s, "unknown") {
            Ok(BatteryState::Unknown)
        } else if str_eq(s, "charging") {
            Ok(BatteryState::Charging)
        } else if str_eq(s, "discharging") {
            Ok(BatteryState::Discharging)
        } else if str_eq(s, "empty") {
            Ok(BatteryState::Empty)
        } else if str_eq(s, "fully_charged") {
            Ok(BatteryState::FullyCharged)
        } else if str_eq(s, "pending_charge") {
            Ok(BatteryState::PendingCharge)
        } else if str_eq(s, "pending_discharge") {
            Ok(BatteryState::PendingDischarge)
        } else {
            Err(InvalidBatteryStateError)
        }
    }
}

impl vstd::std_specs::convert::TryFromSpecImpl<&str> for BatteryState {
    open spec fn obeys_try_from_spec() -> bool {
        true
    }

    open spec fn try_from_spec(s: &str) -> Result<BatteryState, InvalidBatteryStateError> {
        BatteryState::spec_try_from(s@)
    }
}

impl TryFrom<&str> for BatteryLevel {
    type Error = InvalidBatteryLevelError;

    /// Reads a level by the name that the configuration gives it.
    fn try_from(s: &str) -> (level: Result<BatteryLevel, InvalidBatteryLevelError>) {
        if str_eq(s, "unknown") {
            Ok(BatteryLevel::Unknown)
        } else if str_eq(s, "none") {
            Ok(BatteryLevel::NoLevel)
        } else if str_eq(s, "low") {
            Ok(BatteryLevel::Low)
        } else if str_eq(s, "critical") {
            Ok(BatteryLevel::Critical)
        } else if str_eq(s, "normal") {
            Ok(BatteryLevel::Normal)
        } else if str_eq(s, "high") {
            Ok(BatteryLevel::High)
        } else if str_eq(s, "full") {
            Ok(BatteryLevel::Full)
        } else {
            Err(InvalidBatteryLevelError)
        }
    }
}

impl vstd::std_specs::convert::TryFromSpecImpl<&str> for BatteryLevel {
    open spec fn obeys_try_from_spec() -> bool {
        true
    }

    open spec fn try_from_spec(s: &str) -> Result<BatteryLevel, InvalidBatteryLevelError> {
        BatteryLevel::spec_try_from(s@)
    }
}

/// Every battery state is read back from the name that the configuration
/// gives it.
pub proof fn lemma_state_names_read_back(state: BatteryState)
    ensures
        BatteryState::spec_try_from(state.spec_config_name()) == Ok::<
            BatteryState,
            InvalidBatteryStateError,
        >(state),
{
    reveal_strlit("unknown");
    reveal_strlit("charging");
    reveal_strlit("discharging");
    reveal_strlit("empty");
    reveal_strlit("fully_charged");
    reveal_strlit("pending_charge");
    reveal_strlit("pending_discharge");
    assert("unknown"@.len() == 7 && "charging"@.len() == 8 && "discharging"@.len() == 11);
    assert("empty"@.len() == 5 && "fully_charged"@.len() == 13);
    assert("pending_charge"@.len() == 14 && "pending_discharge"@.len() == 17);
}

/// Every battery level is read back from its name.
pub proof fn lemma_level_names_read_back(level: BatteryLevel)
    ensures
        BatteryLevel::spec_try_from(level.spec_name()) == Ok::<
            BatteryLevel,
            InvalidBatteryLevelError,
        >(level),
{
    reveal_strlit("unknown");
    reveal_strlit("none");
    reveal_strlit("low");
    reveal_strlit("critical");
    reveal_strlit("normal");
    reveal_strlit("high");
    reveal_strlit("full");
    assert("unknown"@.len() == 7 && "low"@.len() == 3 && "critical"@.len() == 8);
    assert("normal"@.len() == 6);
    assert("none"@[0] == 'n' && "high"@[0] == 'h' && "full"@[0] == 'f');
}

/// One idle timer: how long the session must be idle, under which
/// conditions the timer runs, and what to run when it fires and when the
/// user comes back.
#[derive(Debug)]
pub struct ListenerConfig {
    /// All of them must hold; with none, the timer always runs.
    pub conditions: Vec<Condition>,
    /// The idle time in seconds.
    pub timeout: u32,
    pub on_timeout: Option<String>,
    pub on_resume: Option<String>,
}

impl ListenerConfig {
    /// The idle time in milliseconds.
    pub open spec fn spec_timeout_millis(self) -> int {
        self.timeout * 1000
    }

    /// Whether the idle time in milliseconds fits the 32 bits in which the
    /// compositor takes it.
    pub open spec fn spec_fits(self) -> bool {
        self.spec_timeout_millis() <= u32::MAX
    }

    /// Whether the idle time in milliseconds fits the 32 bits in which the
    /// compositor takes it.
    pub fn fits(&self) -> (fits: bool)
        ensures
            fits == self.spec_fits(),
    {
        self.timeout <= u32::MAX / 1000
    }

    /// The idle time in milliseconds.
    pub fn timeout_millis(&self) -> (millis: u32)
        requires
            self.spec_fits(),
        ensures
            millis == self.spec_timeout_millis(),
    {
        self.timeout * 1000
    }
}

/// A whole configuration: the general settings and the listeners, in the
/// order in which they are written.
#[derive(Debug)]
pub struct Config {
    pub general: MoxidleConfig,
    pub listeners: Vec<ListenerConfig>,
}

/// Whether the idle time of every listener fits.
pub open spec fn all_fit(listeners: Seq<ListenerConfig>) -> bool {
    forall|i: int| 0 <= i < listeners.len() ==> (#[trigger] listeners[i]).spec_fits()
}

impl Config {
    /// Whether the idle time of every listener fits, in milliseconds, the 32
    /// bits in which the compositor takes it.
    pub fn fits(&self) -> (fits: bool)
        ensures
            fits == all_fit(self.listeners@),
    {
        let mut i: usize = 0;
        while i < self.listeners.len()
            invariant
                i <= self.listeners@.len(),
                forall|k: int| 0 <= k < i ==> (#[trigger] self.listeners@[k]).spec_fits(),
            decreases self.listeners@.len() - i,
        {
            if !self.listeners[i].fits() {
                return false;
            }
            i = i + 1;
        }
        true
    }
}

} // verus!
