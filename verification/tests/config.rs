use moxidle::config::{Condition, ListenerConfig, MoxidleConfig};
use moxidle::float::Float64;
use moxidle::upower::BatteryLevel;

fn listener(timeout: u32) -> ListenerConfig {
    ListenerConfig { conditions: Vec::new(), timeout, on_timeout: None, on_resume: None }
}

#[test]
fn timeout_in_milliseconds() {
    assert_eq!(listener(300).timeout_millis(), 300_000);
    assert_eq!(listener(0).timeout_millis(), 0);
    assert_eq!(listener(1).timeout_millis(), 1000);
    assert_eq!(listener(4_294_967).timeout_millis(), 4_294_967_000);
}

#[test]
fn timeout_must_fit() {
    assert!(listener(0).fits());
    assert!(listener(4_294_967).fits());
    assert!(!listener(4_294_968).fits());
    assert!(!listener(u32::MAX).fits());
}

#[test]
fn default_config_has_nothing_set() {
    let config = MoxidleConfig::default();
    assert_eq!(config.lock_cmd, None);
    assert_eq!(config.unlock_cmd, None);
    assert_eq!(config.before_sleep_cmd, None);
    assert_eq!(config.after_sleep_cmd, None);
    assert!(!config.ignore_dbus_inhibit);
    assert!(!config.ignore_systemd_inhibit);
    assert!(!config.ignore_audio_inhibit);
}

#[test]
fn conditions_know_their_kind() {
    let twenty = Float64::from_bits(20.0f64.to_bits());
    assert!(Condition::OnBattery.is_on_battery());
    assert!(!Condition::OnAc.is_on_battery());
    assert!(Condition::BatteryBelow(twenty).is_on_charge());
    assert!(Condition::BatteryAbove(twenty).is_on_charge());
    assert!(Condition::BatteryEqual(twenty).is_on_charge());
    assert!(!Condition::BatteryLevel(BatteryLevel::Low).is_on_charge());
    assert!(Condition::BatteryLevel(BatteryLevel::Low).is_on_battery_level());
    assert!(!Condition::BatteryLevel(BatteryLevel::Low).is_on_battery_state());
    assert!(Condition::UsbPlugged("1d6b:0002".to_string()).is_on_usb());
    assert!(Condition::UsbUnplugged("1d6b:0002".to_string()).is_on_usb());
    assert!(!Condition::OnBattery.is_on_usb());
}
