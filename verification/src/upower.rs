//! What is known of the machine's power supply.
use crate::float::Float64;
use vstd::prelude::*;

verus! {

/// What the battery is doing.
#[derive(Clone, Copy, Debug, PartialEq, Eq, Structural)]
pub enum BatteryState {
    Unknown,
    Charging,
    Discharging,
    Empty,
    FullyCharged,
    PendingCharge,
    PendingDischarge,
}

impl BatteryState {
    /// The number that stands for the state on the power service's bus.
    pub open spec fn spec_repr(self) -> u32 {
        match self {
            BatteryState::Unknown => 0,
            BatteryState::Charging => 1,
            BatteryState::Discharging => 2,
            BatteryState::Empty => 3,
            BatteryState::FullyCharged => 4,
            BatteryState::PendingCharge => 5,
            BatteryState::PendingDischarge => 6,
        }
    }

    /// The state's name in lower case, without separators.
    pub open spec fn spec_name(self) -> Seq<char> {
        match self {
            BatteryState::Unknown => "unknown"@,
            BatteryState::Charging => "charging"@,
            BatteryState::Discharging => "discharging"@,
            BatteryState::Empty => "empty"@,
            BatteryState::FullyCharged => "fullycharged"@,
            BatteryState::PendingCharge => "pendingcharge"@,
            BatteryState::PendingDischarge => "pendingdischarge"@,
        }
    }

    /// The number that stands for the state on the power service's bus.
    pub fn repr(&self) -> (n: u32)
        ensures
            n == self.spec_repr(),
    {
        match self {
            BatteryState::Unknown => 0,
            BatteryState::Charging => 1,
            BatteryState::Discharging => 2,
            BatteryState::Empty => 3,
            BatteryState::FullyCharged => 4,
            BatteryState::PendingCharge => 5,
            BatteryState::PendingDischarge => 6,
        }
    }

    /// The state that a number from the bus stands for, if it stands for one.
    pub fn from_repr(n: u32) -> (state: Option<BatteryState>)
        ensures
            match state {
                Some(s) => s.spec_repr() == n,
                None => forall|s: BatteryState| s.spec_repr() != n,
            },
    {
        match n {
            0 => Some(BatteryState::Unknown),
            1 => Some(BatteryState::Charging),
            2 => Some(BatteryState::Discharging),
            3 => Some(BatteryState::Empty),
            4 => Some(BatteryState::FullyCharged),
            5 => Some(BatteryState::PendingCharge),
            6 => Some(BatteryState::PendingDischarge),
            _ => None,
        }
    }

    /// The state's name in lower case, without separators.
    pub fn to_string(&self) -> (name: String)
        ensures
            name@ == self.spec_name(),
    {
        let name = match self {
            BatteryState::Unknown => "unknown",
            BatteryState::Charging => "charging",
            BatteryState::Discharging => "discharging",
            BatteryState::Empty => "empty",
            BatteryState::FullyCharged => "fullycharged",
            BatteryState::PendingCharge => "pendingcharge",
            BatteryState::PendingDischarge => "pendingdischarge",
        };
        name.to_owned()
    }
}

impl Default for BatteryState {
    fn default() -> (state: BatteryState)
        ensures
            state == BatteryState::Unknown,
    {
        BatteryState::Unknown
    }
}

/// How full the power service judges the battery to be.
#[derive(Clone, Copy, Debug, PartialEq, Eq, Structural)]
pub enum BatteryLevel {
    Unknown,
    /// The battery reports no coarse level (the service calls this "none").
    NoLevel,
    Low,
    Critical,
    Normal,
    High,
    Full,
}

impl BatteryLevel {
    /// The number that stands for the level on the power service's bus. The
    /// numbers 2 and 5 stand for no level.
    pub open spec fn spec_repr(self) -> u32 {
        match self {
            BatteryLevel::Unknown => 0,
            BatteryLevel::NoLevel => 1,
            BatteryLevel::Low => 3,
            BatteryLevel::Critical => 4,
            BatteryLevel::Normal => 6,
            BatteryLevel::High => 7,
            BatteryLevel::Full => 8,
        }
    }

    /// The level's name in lower case.
    pub open spec fn spec_name(self) -> Seq<char> {
        match self {
            BatteryLevel::Unknown => "unknown"@,
            BatteryLevel::NoLevel => "none"@,
            BatteryLevel::Low => "low"@,
            BatteryLevel::Critical => "critical"@,
            BatteryLevel::Normal => "normal"@,
            BatteryLevel::High => "high"@,
            BatteryLevel::Full => "full"@,
        }
    }

    /// The number that stands for the level on the power service's bus.
    pub fn repr(&self) -> (n: u32)
        ensures
            n == self.spec_repr(),
    {
        match self {
            BatteryLevel::Unknown => 0,
            BatteryLevel::NoLevel => 1,
            BatteryLevel::Low => 3,
            BatteryLevel::Critical => 4,
            BatteryLevel::Normal => 6,
            BatteryLevel::High => 7,
            BatteryLevel::Full => 8,
        }
    }

    /// The level that a number from the bus stands for, if it stands for one.
    pub fn from_repr(n: u32) -> (level: Option<BatteryLevel>)
        ensures
            match level {
                Some(l) => l.spec_repr() == n,
                None => forall|l: BatteryLevel| l.spec_repr() != n,
            },
    {
        match n {
            0 => Some(BatteryLevel::Unknown),
            1 => Some(BatteryLevel::NoLevel),
            3 => Some(BatteryLevel::Low),
            4 => Some(BatteryLevel::Critical),
            6 => Some(BatteryLevel::Normal),
            7 => Some(BatteryLevel::High),
            8 => Some(BatteryLevel::Full),
            _ => None,
        }
    }

    /// The level's name in lower case.
    pub fn to_string(&self) -> (name: String)
        ensures
            name@ == self.spec_name(),
    {
        let name = match self {
            BatteryLevel::Unknown => "unknown",
            BatteryLevel::NoLevel => "none",
            BatteryLevel::Low => "low",
            BatteryLevel::Critical => "critical",
            BatteryLevel::Normal => "normal",
            BatteryLevel::High => "high",
            BatteryLevel::Full => "full",
        };
        name.to_owned()
    }
}

impl Default for BatteryLevel {
    fn default() -> (level: BatteryLevel)
        ensures
            level == BatteryLevel::Unknown,
    {
        BatteryLevel::Unknown
    }
}

/// Where the machine draws its power from.
#[derive(Clone, Copy, Debug, PartialEq, Eq, Structural)]
pub enum PowerSource {
    Battery,
    Plugged,
}

impl Default for PowerSource {
    fn default() -> (source: PowerSource)
        ensures
            source == PowerSource::Battery,
    {
        PowerSource::Battery
    }
}

/// How the battery's charge stands to a threshold.
#[derive(Clone, Copy, Debug, PartialEq, Eq, Structural)]
pub enum LevelComparison {
    Below,
    Above,
    Equal,
}

/// The latest reading of the power supply, as contracts see it.
pub struct PowerStatus {
    pub source: PowerSource,
    pub level: BatteryLevel,
    pub state: BatteryState,
    /// The charge in percent: a NaN, or a number from 0 to 100.
    pub percentage: Float64,
}

impl PowerStatus {
    /// The reading before anything was heard from the power service: on
    /// battery, level and state unknown, charge zero.
    pub open spec fn initial() -> PowerStatus {
        PowerStatus {
            source: PowerSource::Battery,
            level: BatteryLevel::Unknown,
            state: BatteryState::Unknown,
            percentage: Float64::spec_zero(),
        }
    }

    /// How the charge stands to `threshold`; nothing when either is a NaN.
    pub open spec fn compare_level(self, threshold: Float64) -> Option<LevelComparison> {
        if self.percentage.spec_lt(threshold) {
            Some(LevelComparison::Below)
        } else if self.percentage.spec_gt(threshold) {
            Some(LevelComparison::Above)
        } else if self.percentage.spec_same(threshold) {
            Some(LevelComparison::Equal)
        } else {
            None
        }
    }
}

/// Of two numbers exactly one of below, above and equal holds; with a NaN
/// on either side none does.
pub proof fn lemma_compare_level_is_total(status: PowerStatus, threshold: Float64)
    ensures
        status.compare_level(threshold) is None <==> (status.percentage.spec_is_nan()
            || threshold.spec_is_nan()),
        status.compare_level(threshold) == Some(LevelComparison::Below)
            <==> status.percentage.spec_lt(threshold),
        status.compare_level(threshold) == Some(LevelComparison::Above)
            <==> status.percentage.spec_gt(threshold),
        status.compare_level(threshold) == Some(LevelComparison::Equal)
            <==> status.percentage.spec_same(threshold),
{
}

/// The latest reading of the power supply.
#[derive(Debug)]
pub struct Power {
    source: PowerSource,
    level: BatteryLevel,
    state: BatteryState,
    percentage: Float64,
}

impl View for Power {
    type V = PowerStatus;

    closed spec fn view(&self) -> PowerStatus {
        PowerStatus {
            source: self.source,
            level: self.level,
            state: self.state,
            percentage: self.percentage,
        }
    }
}

impl Default for Power {
    fn default() -> (power: Power)
        ensures
            power@ == PowerStatus::initial(),
    {
        Power {
            source: PowerSource::Battery,
            level: BatteryLevel::Unknown,
            state: BatteryState::Unknown,
            percentage: Float64::zero(),
        }
    }
}

impl Power {
    #[verifier::type_invariant]
    spec fn charge_is_percent(self) -> bool {
        self.percentage.spec_is_percent()
    }

    pub fn source(&self) -> (source: &PowerSource)
        ensures
            *source == self@.source,
    {
        &self.source
    }

    /// The charge in percent: a NaN, or a number from 0 to 100.
    pub fn percentage(&self) -> (percentage: Float64)
        ensures
            percentage == self@.percentage,
            percentage.spec_is_percent(),
    {
        proof {
            use_type_invariant(self);
        }
        self.percentage
    }

    pub fn update_level(&mut self, level: BatteryLevel)
        ensures
            final(self)@ == (PowerStatus { level, ..old(self)@ }),
    {
        proof {
            use_type_invariant(&*self);
        }
        self.level = level;
    }

    pub fn update_state(&mut self, state: BatteryState)
        ensures
            final(self)@ == (PowerStatus { state, ..old(self)@ }),
    {
        proof {
            use_type_invariant(&*self);
        }
        self.state = state;
    }

    pub fn update_source(&mut self, on_battery: bool)
        ensures
            final(self)@ == (PowerStatus {
                source: if on_battery {
                    PowerSource::Battery
                } else {
                    PowerSource::Plugged
                },
                ..old(self)@
            }),
    {
        proof {
            use_type_invariant(&*self);
        }
        self.source = if on_battery {
            PowerSource::Battery
        } else {
            PowerSource::Plugged
        };
    }

    /// Takes a new charge reading, clamped to the range from 0 to 100.
    pub fn update_percentage(&mut self, new_percentage: Float64)
        ensures
            final(self)@ == (PowerStatus {
                percentage: new_percentage.spec_clamp_percent(),
                ..old(self)@
            }),
    {
        self.percentage = new_percentage.clamp_percent();
    }

    /// How the charge stands to `threshold`; nothing when either is a NaN.
    pub fn level_cmp(&self, threshold: &Float64) -> (comparison: Option<LevelComparison>)
        ensures
            comparison == self@.compare_level(*threshold),
    {
        let power = self.percentage;
        if power.lt(threshold) {
            Some(LevelComparison::Below)
        } else if power.gt(threshold) {
            Some(LevelComparison::Above)
        } else if power.same(threshold) {
            Some(LevelComparison::Equal)
        } else {
            None
        }
    }

    pub fn state(&self) -> (state: &BatteryState)
        ensures
            *state == self@.state,
    {
        &self.state
    }

    pub fn level(&self) -> (level: &BatteryLevel)
        ensures
            *level == self@.level,
    {
        &self.level
    }
}

/// Which readings of the power service somebody waits for.
#[derive(Clone, Copy, Debug, PartialEq, Eq, Structural)]
pub struct PowerWatch {
    /// Whether the machine runs on battery.
    pub on_battery: bool,
    /// The charge in percent.
    pub percentage: bool,
    /// What the battery is doing.
    pub state: bool,
    /// How full the service judges the battery to be.
    pub level: bool,
}

impl PowerWatch {
    /// The readings to watch, given which of them nobody waits for.
    pub fn new(
        ignore_on_battery: bool,
        ignore_battery_percentage: bool,
        ignore_battery_state: bool,
        ignore_battery_level: bool,
    ) -> (watch: PowerWatch)
        ensures
            watch == (PowerWatch {
                on_battery: !ignore_on_battery,
                percentage: !ignore_battery_percentage,
                state: !ignore_battery_state,
                level: !ignore_battery_level,
            }),
    {
        PowerWatch {
            on_battery: !ignore_on_battery,
            percentage: !ignore_battery_percentage,
            state: !ignore_battery_state,
            level: !ignore_battery_level,
        }
    }

    /// Whether the power service is needed at all.
    pub fn needs_service(&self) -> (needed: bool)
        ensures
            needed == (self.on_battery || self.percentage || self.state || self.level),
    {
        self.on_battery || self.needs_device()
    }

    /// Whether the battery itself must be watched: it gives every reading
    /// but the one of the power source.
    pub fn needs_device(&self) -> (needed: bool)
        ensures
            needed == (self.percentage || self.state || self.level),
    {
        self.percentage || self.state || self.level
    }
}

} // verus!
