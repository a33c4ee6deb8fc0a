//! What the engine keeps, and what each event makes of it: the model that
//! the engine's contracts speak of.
use crate::config::{Condition, ListenerConfig, MoxidleConfig};
use crate::evaluate::conditions_hold;
use crate::event::{Action, Event, IdleNotification, LockState, NotificationEvent, Slot};
use crate::upower::{PowerSource, PowerStatus, PowerWatch};
use crate::usb::UsbDeviceId;
use vstd::prelude::*;

verus! {

/// A listener with the idle notification that runs its timer, if any.
#[derive(Debug)]
pub struct TimeoutHandler {
    pub config: ListenerConfig,
    /// The live notification; at most one at a time.
    pub notification: Option<IdleNotification>,
}

impl TimeoutHandler {
    /// A listener whose timer does not run yet.
    pub fn new(config: ListenerConfig) -> (handler: TimeoutHandler)
        ensures
            handler.config == config,
            handler.notification is None,
    {
        TimeoutHandler { config, notification: None }
    }

    /// The command to run when the timer fires.
    pub fn on_timeout(&self) -> (command: Option<&String>)
        ensures
            match command {
                Some(c) => self.config.on_timeout == Some(*c),
                None => self.config.on_timeout is None,
            },
    {
        self.config.on_timeout.as_ref()
    }

    /// The command to run when the user comes back.
    pub fn on_resume(&self) -> (command: Option<&String>)
        ensures
            match command {
                Some(c) => self.config.on_resume == Some(*c),
                None => self.config.on_resume is None,
            },
    {
        self.config.on_resume.as_ref()
    }

    /// Whether the listener's settings can be carried out, and its
    /// notification, if it has one, has the listener's idle time.
    pub open spec fn sound(self) -> bool {
        &&& self.config.spec_fits()
        &&& self.notification matches Some(n) ==> n.timeout_millis
            == self.config.spec_timeout_millis()
    }
}

/// Who inhibits idling at the moment.
#[derive(Clone, Copy, Debug, PartialEq, Eq, Structural)]
pub struct Inhibitors {
    /// An audio stream is playing.
    pub audio_inhibitor: bool,
    /// An application holds a screen saver inhibition.
    pub dbus_inhibitor: bool,
    /// The session manager holds an inhibition that blocks idling.
    pub systemd_inhibitor: bool,
}

impl Inhibitors {
    /// Whether anybody inhibits idling.
    pub open spec fn spec_active(self) -> bool {
        self.dbus_inhibitor || self.systemd_inhibitor || self.audio_inhibitor
    }

    /// Whether anybody inhibits idling.
    pub fn active(&self) -> (active: bool)
        ensures
            active == self.spec_active(),
    {
        self.dbus_inhibitor || self.systemd_inhibitor || self.audio_inhibitor
    }
}

impl Default for Inhibitors {
    fn default() -> (inhibitors: Inhibitors)
        ensures
            !inhibitors.audio_inhibitor,
            !inhibitors.dbus_inhibitor,
            !inhibitors.systemd_inhibitor,
    {
        Inhibitors { audio_inhibitor: false, dbus_inhibitor: false, systemd_inhibitor: false }
    }
}

/// Nanoseconds in a second.
pub const NANOS_PER_SEC: u64 = 1_000_000_000;

/// The lock state of the session.
#[derive(Clone, Copy, Debug, PartialEq, Eq, Structural)]
pub struct State {
    /// The notification that tells of input while the session is locked.
    pub notification: Option<IdleNotification>,
    pub lock_state: LockState,
    /// The clock's reading, in nanoseconds, when the session was locked.
    pub active_since: Option<u64>,
}

impl State {
    /// The state of an unlocked session.
    pub open spec fn initial() -> State {
        State { notification: None, lock_state: LockState::Unlocked, active_since: None }
    }

    /// A locked session has a probing notification without timeout and the
    /// time of its locking; an unlocked session has neither.
    pub open spec fn sound(self) -> bool {
        match self.lock_state {
            LockState::Locked => self.notification == Some(IdleNotification { timeout_millis: 0 })
                && self.active_since is Some,
            LockState::Unlocked => self.notification is None && self.active_since is None,
        }
    }

    /// The state after a request for `lock_state` at the time `now`: as
    /// before if the session is in that state already; else in that state,
    /// with `now` as the time of locking or with none.
    pub open spec fn with_lock_state(self, lock_state: LockState, now: u64) -> State {
        if self.lock_state == lock_state {
            self
        } else {
            State {
                lock_state,
                active_since: if lock_state == LockState::Locked {
                    Some(now)
                } else {
                    None
                },
                ..self
            }
        }
    }

    /// For how many whole seconds the session has been locked at the time
    /// `now`, in 32 bits: 0 while it is not locked.
    pub open spec fn active_seconds(self, now: u64) -> u32 {
        match self.active_since {
            Some(since) if self.lock_state == LockState::Locked => {
                let elapsed = if now >= since {
                    now - since
                } else {
                    0
                };
                ((elapsed / NANOS_PER_SEC as int) % 0x1_0000_0000) as u32
            },
            _ => 0,
        }
    }

    /// The state of an unlocked session.
    pub fn new() -> (state: State)
        ensures
            state == State::initial(),
    {
        State { notification: None, active_since: None, lock_state: LockState::Unlocked }
    }

    /// Takes the session to `lock_state` and tells whether that changed
    /// anything: a request for the state that the session is in changes
    /// nothing.
    pub fn set_lock_state(&mut self, lock_state: LockState, now: u64) -> (changed: bool)
        ensures
            *final(self) == old(self).with_lock_state(lock_state, now),
            changed == (old(self).lock_state != lock_state),
    {
        if self.lock_state != lock_state {
            self.lock_state = lock_state;
            self.active_since = match lock_state {
                LockState::Locked => Some(now),
                LockState::Unlocked => None,
            };
            true
        } else {
            false
        }
    }

    /// For how many whole seconds the session has been locked at the time
    /// `now`.
    pub fn get_active_seconds(&self, now: u64) -> (seconds: u32)
        ensures
            seconds == self.active_seconds(now),
    {
        match (self.lock_state, self.active_since) {
            (LockState::Locked, Some(since)) => {
                let elapsed: u64 = if now >= since {
                    now - since
                } else {
                    0
                };
                ((elapsed / NANOS_PER_SEC) % 0x1_0000_0000) as u32
            },
            _ => 0,
        }
    }
}

/// A listener without notification for each of the settings, in their order.
pub open spec fn fresh_listeners(configs: Seq<ListenerConfig>) -> Seq<TimeoutHandler> {
    Seq::new(configs.len(), |i: int| TimeoutHandler { config: configs[i], notification: None })
}

/// The actions that run a command, if there is one.
pub open spec fn run(command: Option<String>) -> Seq<Action> {
    match command {
        Some(c) => seq![Action::Execute(c)],
        None => seq![],
    }
}

/// All that the engine keeps, as contracts see it.
pub struct EngineState {
    pub state: State,
    pub listeners: Seq<TimeoutHandler>,
    pub config: MoxidleConfig,
    pub inhibitors: Inhibitors,
    pub power: PowerStatus,
}

impl EngineState {
    /// Whether every part of the state is sound by itself.
    pub open spec fn sound(self) -> bool {
        &&& self.state.sound()
        &&& forall|i: int| 0 <= i < self.listeners.len() ==> (#[trigger] self.listeners[i]).sound()
    }

    /// Whether no listener has a notification.
    pub open spec fn disarmed(self) -> bool {
        forall|i: int|
            0 <= i < self.listeners.len() ==> (#[trigger] self.listeners[i]).notification is None
    }

    /// What holds of the engine between any two events: its parts are sound,
    /// and while anybody inhibits idling no listener has a notification.
    pub open spec fn inv(self) -> bool {
        &&& self.sound()
        &&& self.inhibitors.spec_active() ==> self.disarmed()
    }

    /// Whether the timer of listener `i` should run: nobody inhibits idling,
    /// and the listener's conditions hold.
    pub open spec fn eligible(self, usb: Option<Seq<UsbDeviceId>>, i: int) -> bool {
        !self.inhibitors.spec_active() && conditions_hold(
            self.power,
            usb,
            self.listeners[i].config.conditions@,
        )
    }

    /// Listener `i` after reconciliation: with a notification of its idle
    /// time if its timer should run (the one it has, if it has one), and
    /// without one if not.
    pub open spec fn reconciled_listener(
        self,
        usb: Option<Seq<UsbDeviceId>>,
        i: int,
    ) -> TimeoutHandler {
        let listener = self.listeners[i];
        if self.eligible(usb, i) {
            if listener.notification is None {
                TimeoutHandler {
                    notification: Some(
                        IdleNotification {
                            timeout_millis: listener.config.spec_timeout_millis() as u32,
                        },
                    ),
                    ..listener
                }
            } else {
                listener
            }
        } else {
            TimeoutHandler { notification: None, ..listener }
        }
    }

    /// What reconciliation asks for on behalf of listener `i`: a new
    /// notification if its timer should run and it has none, the end of its
    /// notification if its timer should not run and it has one, else
    /// nothing.
    pub open spec fn listener_actions(self, usb: Option<Seq<UsbDeviceId>>, i: int) -> Seq<Action> {
        let listener = self.listeners[i];
        if self.eligible(usb, i) {
            if listener.notification is None {
                seq![
                    Action::CreateNotification {
                        slot: Slot::Listener(i as usize),
                        timeout_millis: listener.config.spec_timeout_millis() as u32,
                    },
                ]
            } else {
                seq![]
            }
        } else {
            if listener.notification is Some {
                seq![Action::DestroyNotification { slot: Slot::Listener(i as usize) }]
            } else {
                seq![]
            }
        }
    }

    /// What reconciliation asks for on behalf of the first `n` listeners,
    /// in their order.
    pub open spec fn reconcile_actions_upto(self, usb: Option<Seq<UsbDeviceId>>, n: nat) -> Seq<
        Action,
    >
        decreases n,
    {
        if n == 0 {
            seq![]
        } else {
            self.reconcile_actions_upto(usb, (n - 1) as nat) + self.listener_actions(usb, n - 1)
        }
    }

    /// What reconciliation asks for: the actions of all listeners, in their
    /// order.
    pub open spec fn reconcile_actions(self, usb: Option<Seq<UsbDeviceId>>) -> Seq<Action> {
        self.reconcile_actions_upto(usb, self.listeners.len())
    }

    /// The engine after reconciliation: every listener has a notification
    /// exactly if its timer should run.
    pub open spec fn reconciled(self, usb: Option<Seq<UsbDeviceId>>) -> EngineState {
        EngineState {
            listeners: Seq::new(self.listeners.len(), |i: int| self.reconciled_listener(usb, i)),
            ..self
        }
    }

    /// Reconciliation: the engine after it, and what it asks for.
    pub open spec fn reconcile(self, usb: Option<Seq<UsbDeviceId>>) -> (EngineState, Seq<Action>) {
        (self.reconciled(usb), self.reconcile_actions(usb))
    }

    /// Locking the session at the time `now`, with the command to run for
    /// it, if any. Nothing happens if the session is locked already.
    pub open spec fn lock(self, now: u64, command: Option<String>) -> (EngineState, Seq<Action>) {
        if self.state.lock_state == LockState::Locked {
            (self, seq![])
        } else {
            (
                EngineState {
                    state: State {
                        notification: Some(IdleNotification { timeout_millis: 0 }),
                        ..self.state.with_lock_state(LockState::Locked, now)
                    },
                    ..self
                },
                run(command) + seq![Action::EmitActiveChanged] + if self.state.notification
                    is None {
                    seq![Action::CreateNotification { slot: Slot::LockProbe, timeout_millis: 0 }]
                } else {
                    seq![]
                },
            )
        }
    }

    /// Unlocking the session, with the command to run for it, if any.
    /// Nothing happens if the session is not locked.
    pub open spec fn unlock(self, command: Option<String>) -> (EngineState, Seq<Action>) {
        if self.state.lock_state == LockState::Unlocked {
            (self, seq![])
        } else {
            (
                EngineState {
                    state: State {
                        notification: None,
                        ..self.state.with_lock_state(LockState::Unlocked, 0)
                    },
                    ..self
                },
                run(command) + seq![Action::EmitActiveChanged] + if self.state.notification
                    is Some {
                    seq![Action::DestroyNotification { slot: Slot::LockProbe }]
                } else {
                    seq![]
                },
            )
        }
    }

    /// The engine with a new power status, reconciled.
    pub open spec fn with_power(self, power: PowerStatus, usb: Option<Seq<UsbDeviceId>>) -> (
        EngineState,
        Seq<Action>,
    ) {
        (EngineState { power, ..self }).reconcile(usb)
    }

    /// The engine with new inhibitors, reconciled.
    pub open spec fn with_inhibitors(
        self,
        inhibitors: Inhibitors,
        usb: Option<Seq<UsbDeviceId>>,
    ) -> (EngineState, Seq<Action>) {
        (EngineState { inhibitors, ..self }).reconcile(usb)
    }

    /// What an event does at the time `now`, while the USB devices are
    /// `usb`: the engine after it, and the actions it asks for.
    pub open spec fn step(self, event: Event, now: u64, usb: Option<Seq<UsbDeviceId>>) -> (
        EngineState,
        Seq<Action>,
    ) {
        match event {
            Event::GetLockState => (self, seq![Action::ReplyLockState(self.state.lock_state)]),
            Event::GetActiveTime => (
                self,
                seq![Action::ReplyActiveTime(self.state.active_seconds(now))],
            ),
            Event::BatteryState(state) => self.with_power(
                PowerStatus { state, ..self.power },
                usb,
            ),
            Event::BatteryLevel(level) => self.with_power(
                PowerStatus { level, ..self.power },
                usb,
            ),
            Event::OnBattery(on_battery) => self.with_power(
                PowerStatus {
                    source: if on_battery {
                        PowerSource::Battery
                    } else {
                        PowerSource::Plugged
                    },
                    ..self.power
                },
                usb,
            ),
            Event::BatteryPercentage(percentage) => self.with_power(
                PowerStatus { percentage: percentage.spec_clamp_percent(), ..self.power },
                usb,
            ),
            Event::SimulateUserActivity | Event::Usb => self.reconcile(usb),
            Event::ScreenSaverInhibit(inhibited) => self.with_inhibitors(
                Inhibitors { dbus_inhibitor: inhibited, ..self.inhibitors },
                usb,
            ),
            Event::BlockInhibited(inhibited) => if inhibited != self.inhibitors.systemd_inhibitor {
                self.with_inhibitors(
                    Inhibitors { systemd_inhibitor: inhibited, ..self.inhibitors },
                    usb,
                )
            } else {
                (self, seq![])
            },
            Event::AudioInhibit(inhibited) => self.with_inhibitors(
                Inhibitors { audio_inhibitor: inhibited, ..self.inhibitors },
                usb,
            ),
            Event::SessionLocked(locked) => if locked {
                self.lock(now, self.config.lock_cmd)
            } else {
                self.unlock(self.config.unlock_cmd)
            },
            Event::ScreenSaverLock => if self.config.lock_cmd is Some {
                self.lock(now, self.config.lock_cmd)
            } else {
                (self, seq![])
            },
            Event::PrepareForSleep(sleep) => (
                self,
                run(
                    if sleep {
                        self.config.before_sleep_cmd
                    } else {
                        self.config.after_sleep_cmd
                    },
                ),
            ),
        }
    }

    /// What a report of the notification of `slot` does. Input on the
    /// probing notification of a locked session unlocks it, without a
    /// command. A listener's notification runs the listener's command for
    /// the report. A report for a notification that the engine does not hold
    /// does nothing.
    pub open spec fn notified(self, slot: Slot, report: NotificationEvent) -> (
        EngineState,
        Seq<Action>,
    ) {
        match slot {
            Slot::LockProbe => if self.state.notification is Some && report
                == NotificationEvent::Resumed {
                self.unlock(None)
            } else {
                (self, seq![])
            },
            Slot::Listener(i) => if i < self.listeners.len() && self.listeners[i as int].notification
                is Some {
                (
                    self,
                    run(
                        match report {
                            NotificationEvent::Idled => self.listeners[i as int].config.on_timeout,
                            NotificationEvent::Resumed => self.listeners[i as int].config.on_resume,
                        },
                    ),
                )
            } else {
                (self, seq![])
            },
        }
    }

    /// Whether any listener has a condition that `pick` picks.
    pub open spec fn has_condition(self, pick: spec_fn(Condition) -> bool) -> bool {
        exists|i: int, j: int|
            0 <= i < self.listeners.len() && 0 <= j < self.listeners[i].config.conditions@.len()
                && pick(#[trigger] self.listeners[i].config.conditions@[j])
    }

    /// Which readings of the power service the listeners' conditions wait
    /// for: the power source for a condition on running on battery, the
    /// charge for one that compares it, and the battery's state and level
    /// for the conditions on them. A condition on running on mains power
    /// waits for none of them by itself.
    pub open spec fn power_watch(self) -> PowerWatch {
        PowerWatch {
            on_battery: self.has_condition(|c: Condition| c is OnBattery),
            percentage: self.has_condition(
                |c: Condition| c is BatteryBelow || c is BatteryAbove || c is BatteryEqual,
            ),
            state: self.has_condition(|c: Condition| c is BatteryState),
            level: self.has_condition(|c: Condition| c is BatteryLevel),
        }
    }

    /// Whether any listener has a condition on USB devices.
    pub open spec fn watches_usb(self) -> bool {
        self.has_condition(|c: Condition| c is UsbPlugged || c is UsbUnplugged)
    }

    /// The end of the notifications of the first `n` listeners that have
    /// one, in the listeners' order.
    pub open spec fn disarm_actions_upto(self, n: nat) -> Seq<Action>
        decreases n,
    {
        if n == 0 {
            seq![]
        } else if self.listeners[n - 1].notification is Some {
            self.disarm_actions_upto((n - 1) as nat).push(
                Action::DestroyNotification { slot: Slot::Listener((n - 1) as usize) },
            )
        } else {
            self.disarm_actions_upto((n - 1) as nat)
        }
    }

    /// Taking up a new configuration: the notifications of all listeners
    /// end, and the new listeners take the place of the old ones, without
    /// notifications. The lock state, the inhibitors and the power status
    /// stay as they are.
    pub open spec fn reload(self, config: MoxidleConfig, listeners: Seq<ListenerConfig>) -> (
        EngineState,
        Seq<Action>,
    ) {
        (
            EngineState { config, listeners: fresh_listeners(listeners), ..self },
            self.disarm_actions_upto(self.listeners.len()),
        )
    }

    /// Whether an event makes the engine look at the USB devices.
    pub open spec fn consults_usb(self, event: Event) -> bool {
        match event {
            Event::BatteryState(_)
            | Event::BatteryLevel(_)
            | Event::OnBattery(_)
            | Event::BatteryPercentage(_)
            | Event::SimulateUserActivity
            | Event::Usb
            | Event::ScreenSaverInhibit(_)
            | Event::AudioInhibit(_) => true,
            Event::BlockInhibited(inhibited) => inhibited != self.inhibitors.systemd_inhibitor,
            _ => false,
        }
    }
}

} // verus!
