use moxidle::config::{Condition, ListenerConfig, MoxidleConfig};
use moxidle::event::{Action, Event, IdleNotification, LockState, NotificationEvent, Slot};
use moxidle::float::Float64;
use moxidle::reactor::Moxidle;
use moxidle::state::{Inhibitors, State};
use moxidle::upower::{BatteryLevel, BatteryState, PowerSource, PowerWatch};
use moxidle::usb::UsbDeviceId;

const SECOND: u64 = 1_000_000_000;

fn f(x: f64) -> Float64 {
    Float64::from_bits(x.to_bits())
}

fn listener(timeout: u32, conditions: Vec<Condition>) -> ListenerConfig {
    ListenerConfig { conditions, timeout, on_timeout: None, on_resume: None }
}

fn commands() -> MoxidleConfig {
    MoxidleConfig {
        lock_cmd: Some("lock".to_string()),
        unlock_cmd: Some("unlock".to_string()),
        before_sleep_cmd: Some("before".to_string()),
        after_sleep_cmd: Some("after".to_string()),
        ..MoxidleConfig::default()
    }
}

fn engine(listeners: Vec<ListenerConfig>) -> Moxidle {
    Moxidle::new(commands(), listeners, None)
}

fn create(i: usize, timeout_millis: u32) -> Action {
    Action::CreateNotification { slot: Slot::Listener(i), timeout_millis }
}

fn destroy(i: usize) -> Action {
    Action::DestroyNotification { slot: Slot::Listener(i) }
}

fn armed(engine: &Moxidle) -> Vec<bool> {
    engine.listeners().iter().map(|l| l.notification.is_some()).collect()
}

#[test]
fn new_engine_is_unlocked_and_disarmed() {
    let engine = engine(vec![listener(300, vec![]), listener(60, vec![Condition::OnAc])]);
    assert_eq!(engine.get_lock_state(), LockState::Unlocked);
    assert_eq!(engine.get_active_seconds(5 * SECOND), 0);
    assert_eq!(armed(&engine), vec![false, false]);
    assert_eq!(engine.listeners()[0].config.timeout, 300);
    assert_eq!(engine.listeners()[1].config.timeout, 60);
    assert_eq!(engine.inhibitors(), Inhibitors::default());
    assert!(!engine.inhibitors().active());
    assert_eq!(*engine.power().source(), PowerSource::Battery);
    assert_eq!(engine.config().lock_cmd, Some("lock".to_string()));
    assert_eq!(
        engine.state(),
        State { notification: None, lock_state: LockState::Unlocked, active_since: None }
    );
}

#[test]
fn listener_on_battery_arms_when_unplugged() {
    let mut engine = engine(vec![listener(300, vec![Condition::OnBattery])]);
    assert_eq!(engine.handle_app_event(Event::OnBattery(false), 0), vec![]);
    assert_eq!(armed(&engine), vec![false]);
    assert_eq!(engine.handle_app_event(Event::OnBattery(true), 0), vec![create(0, 300_000)]);
    assert_eq!(
        engine.listeners()[0].notification,
        Some(IdleNotification { timeout_millis: 300_000 })
    );
}

#[test]
fn listener_below_threshold_follows_the_charge() {
    let mut engine = engine(vec![listener(120, vec![Condition::BatteryBelow(f(20.0))])]);
    assert_eq!(
        engine.handle_app_event(Event::BatteryPercentage(f(15.0)), 0),
        vec![create(0, 120_000)]
    );
    assert_eq!(armed(&engine), vec![true]);
    assert_eq!(engine.handle_app_event(Event::BatteryPercentage(f(25.0)), 0), vec![destroy(0)]);
    assert_eq!(armed(&engine), vec![false]);
}

#[test]
fn idled_runs_on_timeout_once_then_resumed_runs_on_resume() {
    let mut config = listener(10, vec![]);
    config.on_timeout = Some("notify-send idle".to_string());
    config.on_resume = Some("notify-send back".to_string());
    let mut engine = engine(vec![config]);
    assert_eq!(engine.handle_app_event(Event::SimulateUserActivity, 0), vec![create(0, 10_000)]);
    assert_eq!(
        engine.handle_notification(Slot::Listener(0), NotificationEvent::Idled),
        vec![Action::Execute("notify-send idle".to_string())]
    );
    assert_eq!(
        engine.handle_notification(Slot::Listener(0), NotificationEvent::Resumed),
        vec![Action::Execute("notify-send back".to_string())]
    );
    assert_eq!(armed(&engine), vec![true]);
    assert_eq!(engine.get_lock_state(), LockState::Unlocked);
}

#[test]
fn notification_without_command_does_nothing() {
    let mut engine = engine(vec![listener(10, vec![])]);
    engine.handle_app_event(Event::Usb, 0);
    assert_eq!(engine.handle_notification(Slot::Listener(0), NotificationEvent::Idled), vec![]);
    assert_eq!(engine.handle_notification(Slot::Listener(0), NotificationEvent::Resumed), vec![]);
}

#[test]
fn notification_of_a_disarmed_or_unknown_listener_is_dropped() {
    let mut config = listener(10, vec![Condition::OnAc]);
    config.on_timeout = Some("never".to_string());
    let mut engine = engine(vec![config]);
    engine.handle_app_event(Event::Usb, 0);
    assert_eq!(armed(&engine), vec![false]);
    assert_eq!(engine.handle_notification(Slot::Listener(0), NotificationEvent::Idled), vec![]);
    assert_eq!(engine.handle_notification(Slot::Listener(1), NotificationEvent::Idled), vec![]);
    assert_eq!(
        engine.handle_notification(Slot::Listener(usize::MAX), NotificationEvent::Resumed),
        vec![]
    );
    assert_eq!(engine.handle_notification(Slot::LockProbe, NotificationEvent::Resumed), vec![]);
}

#[test]
fn inhibited_engine_has_no_armed_listener() {
    let mut engine = engine(vec![listener(1, vec![]), listener(2, vec![]), listener(3, vec![])]);
    assert_eq!(
        engine.handle_app_event(Event::Usb, 0),
        vec![create(0, 1000), create(1, 2000), create(2, 3000)]
    );
    for inhibit in [Event::ScreenSaverInhibit(true), Event::BlockInhibited(true), Event::AudioInhibit(true)] {
        let release = match inhibit {
            Event::ScreenSaverInhibit(_) => Event::ScreenSaverInhibit(false),
            Event::BlockInhibited(_) => Event::BlockInhibited(false),
            _ => Event::AudioInhibit(false),
        };
        assert_eq!(
            engine.handle_app_event(inhibit, 0),
            vec![destroy(0), destroy(1), destroy(2)]
        );
        assert!(engine.inhibitors().active());
        assert_eq!(armed(&engine), vec![false, false, false]);
        for other in [
            Event::OnBattery(true),
            Event::BatteryPercentage(f(50.0)),
            Event::BatteryLevel(BatteryLevel::Full),
            Event::BatteryState(BatteryState::Charging),
            Event::SimulateUserActivity,
            Event::Usb,
            Event::SessionLocked(true),
            Event::SessionLocked(false),
            Event::PrepareForSleep(true),
            Event::GetLockState,
        ] {
            engine.handle_app_event(other, 0);
            assert_eq!(armed(&engine), vec![false, false, false]);
        }
        assert_eq!(
            engine.handle_app_event(release, 0),
            vec![create(0, 1000), create(1, 2000), create(2, 3000)]
        );
        assert!(!engine.inhibitors().active());
    }
}

#[test]
fn two_inhibitors_must_both_go() {
    let mut engine = engine(vec![listener(1, vec![])]);
    engine.handle_app_event(Event::Usb, 0);
    assert_eq!(engine.handle_app_event(Event::AudioInhibit(true), 0), vec![destroy(0)]);
    assert_eq!(engine.handle_app_event(Event::BlockInhibited(true), 0), vec![]);
    assert_eq!(engine.handle_app_event(Event::AudioInhibit(false), 0), vec![]);
    assert_eq!(armed(&engine), vec![false]);
    assert!(engine.inhibitors().systemd_inhibitor);
    assert_eq!(engine.handle_app_event(Event::BlockInhibited(false), 0), vec![create(0, 1000)]);
}

#[test]
fn reconcile_twice_does_nothing_the_second_time() {
    let mut engine = engine(vec![
        listener(1, vec![]),
        listener(2, vec![Condition::OnAc]),
        listener(3, vec![Condition::OnBattery]),
    ]);
    let usb = None;
    assert_eq!(engine.reconcile(&usb), vec![create(0, 1000), create(2, 3000)]);
    let before = armed(&engine);
    assert_eq!(engine.reconcile(&usb), vec![]);
    assert_eq!(armed(&engine), before);
    assert_eq!(engine.reset_idle_timers(), vec![]);
    assert_eq!(engine.handle_app_event(Event::OnBattery(true), 0), vec![]);
    assert_eq!(engine.handle_app_event(Event::OnBattery(false), 0), vec![create(1, 2000), destroy(2)]);
    assert_eq!(engine.handle_app_event(Event::OnBattery(false), 0), vec![]);
}

#[test]
fn lock_signal_twice_runs_lock_cmd_once() {
    let mut engine = engine(vec![]);
    assert_eq!(
        engine.handle_app_event(Event::SessionLocked(true), 7 * SECOND),
        vec![
            Action::Execute("lock".to_string()),
            Action::EmitActiveChanged,
            Action::CreateNotification { slot: Slot::LockProbe, timeout_millis: 0 },
        ]
    );
    assert_eq!(engine.get_lock_state(), LockState::Locked);
    assert_eq!(engine.handle_app_event(Event::SessionLocked(true), 9 * SECOND), vec![]);
    assert_eq!(engine.get_lock_state(), LockState::Locked);
    assert_eq!(engine.state().active_since, Some(7 * SECOND));
}

#[test]
fn unlock_signal_runs_unlock_cmd_and_drops_the_probe() {
    let mut engine = engine(vec![]);
    assert_eq!(engine.handle_app_event(Event::SessionLocked(false), 0), vec![]);
    engine.handle_app_event(Event::SessionLocked(true), 0);
    assert_eq!(
        engine.handle_app_event(Event::SessionLocked(false), SECOND),
        vec![
            Action::Execute("unlock".to_string()),
            Action::EmitActiveChanged,
            Action::DestroyNotification { slot: Slot::LockProbe },
        ]
    );
    assert_eq!(engine.state(), State { notification: None, lock_state: LockState::Unlocked, active_since: None });
    assert_eq!(engine.handle_app_event(Event::SessionLocked(false), 2 * SECOND), vec![]);
}

#[test]
fn input_on_the_probe_unlocks_without_command() {
    let mut engine = engine(vec![]);
    engine.handle_app_event(Event::SessionLocked(true), 0);
    assert_eq!(engine.handle_notification(Slot::LockProbe, NotificationEvent::Idled), vec![]);
    assert_eq!(engine.get_lock_state(), LockState::Locked);
    assert_eq!(
        engine.handle_notification(Slot::LockProbe, NotificationEvent::Resumed),
        vec![Action::EmitActiveChanged, Action::DestroyNotification { slot: Slot::LockProbe }]
    );
    assert_eq!(engine.get_lock_state(), LockState::Unlocked);
    assert_eq!(engine.get_active_seconds(100 * SECOND), 0);
    assert_eq!(engine.handle_notification(Slot::LockProbe, NotificationEvent::Resumed), vec![]);
}

#[test]
fn lock_without_commands_still_changes_state() {
    let mut engine = Moxidle::new(MoxidleConfig::default(), vec![], None);
    assert_eq!(
        engine.handle_app_event(Event::SessionLocked(true), 0),
        vec![
            Action::EmitActiveChanged,
            Action::CreateNotification { slot: Slot::LockProbe, timeout_millis: 0 },
        ]
    );
    assert_eq!(
        engine.handle_app_event(Event::SessionLocked(false), 0),
        vec![Action::EmitActiveChanged, Action::DestroyNotification { slot: Slot::LockProbe }]
    );
}

#[test]
fn lock_request_needs_a_lock_command() {
    let mut without = Moxidle::new(MoxidleConfig::default(), vec![], None);
    assert_eq!(without.handle_app_event(Event::ScreenSaverLock, 0), vec![]);
    assert_eq!(without.get_lock_state(), LockState::Unlocked);
    let mut with = engine(vec![]);
    assert_eq!(
        with.handle_app_event(Event::ScreenSaverLock, 3 * SECOND),
        vec![
            Action::Execute("lock".to_string()),
            Action::EmitActiveChanged,
            Action::CreateNotification { slot: Slot::LockProbe, timeout_millis: 0 },
        ]
    );
    assert_eq!(with.get_lock_state(), LockState::Locked);
    assert_eq!(with.handle_app_event(Event::ScreenSaverLock, 4 * SECOND), vec![]);
    assert_eq!(with.state().active_since, Some(3 * SECOND));
}

#[test]
fn active_time_counts_whole_seconds_since_locking() {
    let mut engine = engine(vec![]);
    assert_eq!(engine.handle_app_event(Event::GetActiveTime, 50 * SECOND), vec![Action::ReplyActiveTime(0)]);
    engine.handle_app_event(Event::SessionLocked(true), 10 * SECOND + 1);
    assert_eq!(engine.get_active_seconds(10 * SECOND + 1), 0);
    assert_eq!(engine.get_active_seconds(11 * SECOND), 0);
    assert_eq!(engine.get_active_seconds(11 * SECOND + 1), 1);
    assert_eq!(engine.get_active_seconds(75 * SECOND), 64);
    assert_eq!(engine.get_active_seconds(3), 0);
    assert_eq!(
        engine.handle_app_event(Event::GetActiveTime, 75 * SECOND),
        vec![Action::ReplyActiveTime(64)]
    );
    engine.handle_app_event(Event::SessionLocked(false), 80 * SECOND);
    assert_eq!(engine.get_active_seconds(90 * SECOND), 0);
}

#[test]
fn active_time_keeps_the_low_32_bits() {
    let mut engine = engine(vec![]);
    engine.handle_app_event(Event::SessionLocked(true), 0);
    let seconds: u64 = (1 << 32) + 5;
    assert_eq!(engine.get_active_seconds(seconds * SECOND), 5);
    assert_eq!(engine.get_active_seconds(u64::MAX), (u64::MAX / SECOND) as u32);
}

#[test]
fn lock_state_is_reported() {
    let mut engine = engine(vec![]);
    assert_eq!(
        engine.handle_app_event(Event::GetLockState, 0),
        vec![Action::ReplyLockState(LockState::Unlocked)]
    );
    engine.handle_app_event(Event::SessionLocked(true), 0);
    assert_eq!(
        engine.handle_app_event(Event::GetLockState, 0),
        vec![Action::ReplyLockState(LockState::Locked)]
    );
}

#[test]
fn sleep_commands() {
    let mut engine = engine(vec![listener(5, vec![])]);
    assert_eq!(
        engine.handle_app_event(Event::PrepareForSleep(true), 0),
        vec![Action::Execute("before".to_string())]
    );
    assert_eq!(
        engine.handle_app_event(Event::PrepareForSleep(false), 0),
        vec![Action::Execute("after".to_string())]
    );
    assert_eq!(armed(&engine), vec![false]);
    let mut bare = Moxidle::new(MoxidleConfig::default(), vec![], None);
    assert_eq!(bare.handle_app_event(Event::PrepareForSleep(true), 0), vec![]);
    assert_eq!(bare.handle_app_event(Event::PrepareForSleep(false), 0), vec![]);
}

#[test]
fn block_inhibited_unchanged_does_nothing() {
    let mut engine = engine(vec![listener(5, vec![])]);
    assert_eq!(engine.handle_app_event(Event::BlockInhibited(false), 0), vec![]);
    assert_eq!(armed(&engine), vec![false]);
    assert_eq!(engine.handle_app_event(Event::ScreenSaverInhibit(false), 0), vec![create(0, 5000)]);
}

#[test]
fn every_condition_is_checked() {
    let usb = Some(vec![UsbDeviceId { vendor_id: 0x1d6b, product_id: 2 }]);
    let cases: Vec<(Condition, Vec<Event>, bool)> = vec![
        (Condition::OnBattery, vec![], true),
        (Condition::OnBattery, vec![Event::OnBattery(false)], false),
        (Condition::OnAc, vec![], false),
        (Condition::OnAc, vec![Event::OnBattery(false)], true),
        (Condition::BatteryBelow(f(20.0)), vec![Event::BatteryPercentage(f(19.9))], true),
        (Condition::BatteryBelow(f(20.0)), vec![Event::BatteryPercentage(f(20.0))], false),
        (Condition::BatteryAbove(f(20.0)), vec![Event::BatteryPercentage(f(20.1))], true),
        (Condition::BatteryAbove(f(20.0)), vec![Event::BatteryPercentage(f(20.0))], false),
        (Condition::BatteryEqual(f(20.0)), vec![Event::BatteryPercentage(f(20.0))], true),
        (Condition::BatteryEqual(f(20.0)), vec![Event::BatteryPercentage(f(20.5))], false),
        (Condition::BatteryAbove(f(100.0)), vec![Event::BatteryPercentage(f(250.0))], false),
        (Condition::BatteryEqual(f(100.0)), vec![Event::BatteryPercentage(f(250.0))], true),
        (Condition::BatteryBelow(f(20.0)), vec![Event::BatteryPercentage(f(f64::NAN))], false),
        (Condition::BatteryAbove(f(20.0)), vec![Event::BatteryPercentage(f(f64::NAN))], false),
        (Condition::BatteryEqual(f(20.0)), vec![Event::BatteryPercentage(f(f64::NAN))], false),
        (Condition::BatteryEqual(f(f64::NAN)), vec![Event::BatteryPercentage(f(f64::NAN))], false),
        (Condition::BatteryLevel(BatteryLevel::Low), vec![Event::BatteryLevel(BatteryLevel::Low)], true),
        (Condition::BatteryLevel(BatteryLevel::Low), vec![Event::BatteryLevel(BatteryLevel::High)], false),
        (Condition::BatteryLevel(BatteryLevel::Unknown), vec![], true),
        (Condition::BatteryState(BatteryState::Charging), vec![Event::BatteryState(BatteryState::Charging)], true),
        (Condition::BatteryState(BatteryState::Charging), vec![], false),
        (Condition::UsbPlugged("1d6b:0002".to_string()), vec![], true),
        (Condition::UsbPlugged("1D6B:0002".to_string()), vec![], true),
        (Condition::UsbPlugged("1d6b:0003".to_string()), vec![], false),
        (Condition::UsbPlugged("nonsense".to_string()), vec![], false),
        (Condition::UsbUnplugged("1d6b:0002".to_string()), vec![], false),
        (Condition::UsbUnplugged("1d6b:0003".to_string()), vec![], true),
        (Condition::UsbUnplugged("nonsense".to_string()), vec![], true),
    ];
    for (condition, events, expected) in cases {
        let mut engine = engine(vec![listener(1, vec![condition])]);
        for event in events {
            engine.step(event, 0, &usb);
        }
        engine.reconcile(&usb);
        assert_eq!(armed(&engine), vec![expected]);
    }
}

#[test]
fn usb_conditions_never_hold_while_devices_cannot_be_told() {
    let mut engine = engine(vec![
        listener(1, vec![Condition::UsbPlugged("1d6b:0002".to_string())]),
        listener(1, vec![Condition::UsbUnplugged("1d6b:0002".to_string())]),
    ]);
    assert_eq!(engine.step(Event::Usb, 0, &None), vec![]);
    assert_eq!(armed(&engine), vec![false, false]);
    assert_eq!(engine.handle_app_event(Event::Usb, 0), vec![]);
    assert_eq!(engine.step(Event::Usb, 0, &Some(vec![])), vec![create(1, 1000)]);
    assert_eq!(
        engine.step(Event::Usb, 0, &Some(vec![UsbDeviceId { vendor_id: 0x1d6b, product_id: 2 }])),
        vec![create(0, 1000), destroy(1)]
    );
}

#[test]
fn all_conditions_of_a_listener_must_hold() {
    let mut engine = engine(vec![listener(
        1,
        vec![Condition::OnBattery, Condition::BatteryBelow(f(30.0))],
    )]);
    assert_eq!(engine.handle_app_event(Event::BatteryPercentage(f(50.0)), 0), vec![]);
    assert_eq!(engine.handle_app_event(Event::BatteryPercentage(f(10.0)), 0), vec![create(0, 1000)]);
    assert_eq!(engine.handle_app_event(Event::OnBattery(false), 0), vec![destroy(0)]);
}

#[test]
fn the_same_snapshot_gives_the_same_armed_set_on_any_path() {
    let listeners = || {
        vec![
            listener(1, vec![Condition::OnAc]),
            listener(2, vec![Condition::BatteryAbove(f(40.0))]),
            listener(3, vec![]),
        ]
    };
    let mut a = engine(listeners());
    let mut b = engine(listeners());
    for event in [
        Event::OnBattery(false),
        Event::BatteryPercentage(f(80.0)),
        Event::AudioInhibit(true),
        Event::AudioInhibit(false),
    ] {
        a.handle_app_event(event, 0);
    }
    for event in [
        Event::AudioInhibit(true),
        Event::BatteryPercentage(f(10.0)),
        Event::AudioInhibit(false),
        Event::BatteryPercentage(f(80.0)),
        Event::OnBattery(true),
        Event::OnBattery(false),
    ] {
        b.handle_app_event(event, 0);
    }
    assert_eq!(armed(&a), vec![true, true, true]);
    assert_eq!(armed(&a), armed(&b));
}

#[test]
fn should_ignore_looks_at_every_condition() {
    let engine = engine(vec![
        listener(1, vec![Condition::OnAc]),
        listener(2, vec![Condition::BatteryAbove(f(40.0)), Condition::BatteryLevel(BatteryLevel::Low)]),
    ]);
    assert!(engine.should_ignore(|c| *c == Condition::OnBattery));
    assert!(!engine.should_ignore(|c| *c == Condition::OnAc));
    assert!(!engine.should_ignore(|c| matches!(c, Condition::BatteryLevel(_))));
    assert!(engine.should_ignore(|c| matches!(c, Condition::BatteryState(_))));
    assert!(engine.should_ignore(|_| false));
    assert!(!engine.should_ignore(|_| true));
    let none = Moxidle::new(MoxidleConfig::default(), vec![listener(1, vec![])], None);
    assert!(none.should_ignore(|_| true));
}

#[test]
fn power_watch_follows_the_conditions() {
    let engine = engine(vec![
        listener(1, vec![Condition::OnAc]),
        listener(2, vec![Condition::BatteryAbove(f(40.0)), Condition::BatteryLevel(BatteryLevel::Low)]),
    ]);
    assert_eq!(
        engine.power_watch(),
        PowerWatch { on_battery: false, percentage: true, state: false, level: true }
    );
    let other = Moxidle::new(
        MoxidleConfig::default(),
        vec![listener(1, vec![Condition::OnBattery, Condition::BatteryState(BatteryState::Empty)])],
        None,
    );
    assert_eq!(
        other.power_watch(),
        PowerWatch { on_battery: true, percentage: false, state: true, level: false }
    );
}

#[test]
fn engine_with_a_usb_context_answers_whatever_is_plugged() {
    let context = rusb::Context::new().ok();
    let mut engine = Moxidle::new(
        MoxidleConfig::default(),
        vec![
            listener(1, vec![Condition::UsbPlugged("1d6b:0002".to_string())]),
            listener(1, vec![Condition::UsbUnplugged("1d6b:0002".to_string())]),
            listener(1, vec![Condition::UsbPlugged("no device".to_string())]),
        ],
        context,
    );
    engine.handle_app_event(Event::Usb, 0);
    let now = armed(&engine);
    assert!(!(now[0] && now[1]));
    assert!(!now[2]);
    engine.reset_idle_timers();
    let again = armed(&engine);
    assert!(!(again[0] && again[1]));
    assert!(!again[2]);
}

#[test]
fn from_config_refuses_a_timeout_that_does_not_fit() {
    let fitting = moxidle::config::Config {
        general: MoxidleConfig::default(),
        listeners: vec![listener(4_294_967, vec![]), listener(0, vec![])],
    };
    assert!(fitting.fits());
    let engine = Moxidle::from_config(fitting, None).unwrap();
    assert_eq!(armed(&engine), vec![false, false]);
    let too_long = moxidle::config::Config {
        general: MoxidleConfig::default(),
        listeners: vec![listener(1, vec![]), listener(4_294_968, vec![])],
    };
    assert!(!too_long.fits());
    assert!(Moxidle::from_config(too_long, None).is_none());
}

#[test]
fn reload_ends_all_notifications_and_takes_the_new_listeners() {
    let mut engine = engine(vec![
        listener(1, vec![]),
        listener(2, vec![Condition::OnAc]),
        listener(3, vec![]),
    ]);
    engine.handle_app_event(Event::SessionLocked(true), 4 * SECOND);
    engine.handle_app_event(Event::Usb, 0);
    assert_eq!(armed(&engine), vec![true, false, true]);
    let actions = engine.reload(MoxidleConfig::default(), vec![listener(9, vec![])]);
    assert_eq!(actions, vec![destroy(0), destroy(2)]);
    assert_eq!(armed(&engine), vec![false]);
    assert_eq!(engine.config().lock_cmd, None);
    assert_eq!(engine.get_lock_state(), LockState::Locked);
    assert_eq!(engine.state().active_since, Some(4 * SECOND));
    assert_eq!(engine.reset_idle_timers(), vec![create(0, 9000)]);
    assert!(engine.get_active());
}
