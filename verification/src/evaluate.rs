//! Deciding whether a listener's conditions hold.
use crate::config::Condition;
use crate::upower::{LevelComparison, Power, PowerSource, PowerStatus};
use crate::usb::{is_plugged, parse_device_id, spec_parse_device_id, spec_plugged, UsbDeviceId};
use vstd::prelude::*;

verus! {

/// The devices that are plugged in, as contracts see them: nothing where the
/// USB library could not be asked.
pub open spec fn usb_view(usb: Option<Vec<UsbDeviceId>>) -> Option<Seq<UsbDeviceId>> {
    match usb {
        Some(devices) => Some(devices@),
        None => None,
    }
}

/// Whether a device that `name` names is among `devices`. A text that names
/// no device matches none.
pub open spec fn device_present(devices: Seq<UsbDeviceId>, name: Seq<char>) -> bool {
    spec_parse_device_id(name) matches Some(id) && spec_plugged(devices, id)
}

/// Whether one condition holds. A condition on USB devices never holds while
/// the devices cannot be told.
pub open spec fn condition_holds(
    power: PowerStatus,
    usb: Option<Seq<UsbDeviceId>>,
    condition: Condition,
) -> bool {
    match condition {
        Condition::OnBattery => power.source == PowerSource::Battery,
        Condition::OnAc => power.source == PowerSource::Plugged,
        Condition::BatteryBelow(threshold) => power.compare_level(threshold) == Some(
            LevelComparison::Below,
        ),
        Condition::BatteryAbove(threshold) => power.compare_level(threshold) == Some(
            LevelComparison::Above,
        ),
        Condition::BatteryEqual(threshold) => power.compare_level(threshold) == Some(
            LevelComparison::Equal,
        ),
        Condition::BatteryLevel(level) => power.level == level,
        Condition::BatteryState(state) => power.state == state,
        Condition::UsbPlugged(name) => usb matches Some(devices) && device_present(
            devices,
            name@,
        ),
        Condition::UsbUnplugged(name) => usb matches Some(devices) && !device_present(
            devices,
            name@,
        ),
    }
}

/// Whether all of the conditions hold. An empty list always holds.
pub open spec fn conditions_hold(
    power: PowerStatus,
    usb: Option<Seq<UsbDeviceId>>,
    conditions: Seq<Condition>,
) -> bool {
    forall|i: int| 0 <= i < conditions.len() ==> condition_holds(power, usb, #[trigger] conditions[i])
}

fn present(usb: &Option<Vec<UsbDeviceId>>, name: &String) -> (found: Option<bool>)
    ensures
        found == match usb_view(*usb) {
            Some(devices) => Some(device_present(devices, name@)),
            None => None,
        },
{
    match usb {
        Some(devices) => match parse_device_id(name.as_str()) {
            Some(id) => Some(is_plugged(devices, id)),
            None => Some(false),
        },
        None => None,
    }
}

/// Whether one condition holds.
pub fn condition_met(power: &Power, usb: &Option<Vec<UsbDeviceId>>, condition: &Condition) -> (met:
    bool)
    ensures
        met == condition_holds(power@, usb_view(*usb), *condition),
{
    match condition {
        Condition::OnBattery => matches!(power.source(), PowerSource::Battery),
        Condition::OnAc => matches!(power.source(), PowerSource::Plugged),
        Condition::BatteryBelow(threshold) => matches!(
            power.level_cmp(threshold),
            Some(LevelComparison::Below)
        ),
        Condition::BatteryAbove(threshold) => matches!(
            power.level_cmp(threshold),
            Some(LevelComparison::Above)
        ),
        Condition::BatteryEqual(threshold) => matches!(
            power.level_cmp(threshold),
            Some(LevelComparison::Equal)
        ),
        Condition::BatteryLevel(level) => *power.level() == *level,
        Condition::BatteryState(state) => *power.state() == *state,
        Condition::UsbPlugged(name) => matches!(present(usb, name), Some(true)),
        Condition::UsbUnplugged(name) => matches!(present(usb, name), Some(false)),
    }
}

/// Whether all of the conditions hold. An empty list always holds.
pub fn evaluate(power: &Power, usb: &Option<Vec<UsbDeviceId>>, conditions: &Vec<Condition>) -> (met:
    bool)
    ensures
        met == conditions_hold(power@, usb_view(*usb), conditions@),
{
    let mut i: usize = 0;
    while i < conditions.len()
        invariant
            i <= conditions@.len(),
            forall|k: int|
                0 <= k < i ==> condition_holds(power@, usb_view(*usb), #[trigger] conditions@[k]),
        decreases conditions@.len() - i,
    {
        if !condition_met(power, usb, &conditions[i]) {
            return false;
        }
        i = i + 1;
    }
    true
}

} // verus!
