//! The engine: it takes events one at a time, keeps the power status, the
//! inhibitors, the lock state and the listeners' timers, and answers each
//! event with the actions that its host must carry out.
use crate::config::{all_fit, Condition, Config, ListenerConfig, MoxidleConfig};
use crate::evaluate::{evaluate, usb_view};
use crate::event::{Action, Event, IdleNotification, LockState, NotificationEvent, Slot};
use crate::laws::{
    lemma_notified_keeps_invariant, lemma_reconcile_restores_invariant,
    lemma_reload_keeps_invariant, lemma_step_keeps_invariant,
};
use crate::state::{fresh_listeners, run, EngineState, Inhibitors, State, TimeoutHandler};
use crate::upower::{Power, PowerStatus, PowerWatch};
use crate::usb::{plugged_devices, UsbDeviceId};
use vstd::prelude::*;

verus! {

/// The engine. Its host feeds it every event, one at a time, and carries out
/// the actions that it returns, in their order; the engine itself touches
/// nothing but its own state and, to learn which USB devices are plugged in,
/// the USB library.
pub struct Moxidle {
    state: State,
    listeners: Vec<TimeoutHandler>,
    config: MoxidleConfig,
    inhibitors: Inhibitors,
    power: Power,
    usb_context: Option<rusb::Context>,
}

impl View for Moxidle {
    type V = EngineState;

    closed spec fn view(&self) -> EngineState {
        EngineState {
            state: self.state,
            listeners: self.listeners@,
            config: self.config,
            inhibitors: self.inhibitors,
            power: self.power@,
        }
    }
}

impl Moxidle {
    /// Whether the engine can ask which USB devices are plugged in.
    pub closed spec fn has_usb(&self) -> bool {
        self.usb_context is Some
    }

    /// Whether the engine is as it is between any two events.
    pub open spec fn wf(&self) -> bool {
        self@.inv()
    }

    /// The engine at the start: the session unlocked, nobody inhibiting, the
    /// power status as before any reading, and a listener without
    /// notification for each of the configured ones, in their order.
    pub open spec fn initial(config: MoxidleConfig, listeners: Seq<ListenerConfig>) -> EngineState {
        EngineState {
            state: State::initial(),
            listeners: fresh_listeners(listeners),
            config,
            inhibitors: Inhibitors {
                audio_inhibitor: false,
                dbus_inhibitor: false,
                systemd_inhibitor: false,
            },
            power: PowerStatus::initial(),
        }
    }

    /// Sets the engine up. Every listener's idle time must fit, in
    /// milliseconds, the 32 bits in which the compositor takes it.
    pub fn new(
        config: MoxidleConfig,
        listener_configs: Vec<ListenerConfig>,
        usb_context: Option<rusb::Context>,
    ) -> (engine: Moxidle)
        requires
            all_fit(listener_configs@),
        ensures
            engine@ == Moxidle::initial(config, listener_configs@),
            engine.wf(),
            engine.has_usb() == usb_context is Some,
    {
        Moxidle {
            usb_context,
            state: State::new(),
            power: Power::default(),
            listeners: Moxidle::listeners_of(listener_configs),
            config,
            inhibitors: Inhibitors::default(),
        }
    }

    /// A listener without notification for each of the settings, in their
    /// order.
    fn listeners_of(listener_configs: Vec<ListenerConfig>) -> (listeners: Vec<TimeoutHandler>)
        ensures
            listeners@ == fresh_listeners(listener_configs@),
    {
        let ghost configs = listener_configs@;
        let mut listeners: Vec<TimeoutHandler> = Vec::new();
        for listener_config in it: listener_configs
            invariant
                it.seq() == configs,
                listeners@.len() == it.index(),
                forall|k: int|
                    0 <= k < listeners@.len() ==> #[trigger] listeners@[k] == (TimeoutHandler {
                        config: configs[k],
                        notification: None,
                    }),
        {
            listeners.push(TimeoutHandler::new(listener_config));
        }
        assert(listeners@ =~= fresh_listeners(configs));
        listeners
    }

    /// Sets the engine up from a whole configuration, if every listener's
    /// idle time fits: see [`Moxidle::new`].
    pub fn from_config(config: Config, usb_context: Option<rusb::Context>) -> (engine: Option<
        Moxidle,
    >)
        ensures
            engine is Some == all_fit(config.listeners@),
            engine matches Some(e) ==> {
                &&& e@ == Moxidle::initial(config.general, config.listeners@)
                &&& e.wf()
                &&& e.has_usb() == usb_context is Some
            },
    {
        if config.fits() {
            Some(Moxidle::new(config.general, config.listeners, usb_context))
        } else {
            None
        }
    }

    /// Whether the session is locked, as a truth value.
    pub fn get_active(&self) -> (active: bool)
        ensures
            active == (self@.state.lock_state == LockState::Locked),
    {
        self.state.lock_state == LockState::Locked
    }

    /// Whether the session is locked.
    pub fn get_lock_state(&self) -> (lock_state: LockState)
        ensures
            lock_state == self@.state.lock_state,
    {
        self.state.lock_state
    }

    /// For how many whole seconds the session has been locked at the time
    /// `now`, a reading of the clock in nanoseconds: 0 while it is not
    /// locked.
    pub fn get_active_seconds(&self, now: u64) -> (seconds: u32)
        ensures
            seconds == self@.state.active_seconds(now),
    {
        self.state.get_active_seconds(now)
    }

    /// The listeners, in the order of the configuration.
    pub fn listeners(&self) -> (listeners: &Vec<TimeoutHandler>)
        ensures
            listeners@ == self@.listeners,
    {
        &self.listeners
    }

    /// The settings that hold for the whole session.
    pub fn config(&self) -> (config: &MoxidleConfig)
        ensures
            *config == self@.config,
    {
        &self.config
    }

    /// Who inhibits idling at the moment.
    pub fn inhibitors(&self) -> (inhibitors: Inhibitors)
        ensures
            inhibitors == self@.inhibitors,
    {
        self.inhibitors
    }

    /// The latest reading of the power supply.
    pub fn power(&self) -> (power: &Power)
        ensures
            power@ == self@.power,
    {
        &self.power
    }

    /// The lock state in full.
    pub fn state(&self) -> (state: State)
        ensures
            state == self@.state,
    {
        self.state
    }

    /// Whether no condition of any listener satisfies the predicate, so that
    /// what the predicate stands for need not be watched.
    pub fn should_ignore<F: Fn(&Condition) -> bool>(&self, condition_predicate: F) -> (ignore: bool)
        requires
            forall|c: &Condition| call_requires(condition_predicate, (c,)),
        ensures
            ignore ==> forall|i: int, j: int|
                0 <= i < self@.listeners.len() && 0 <= j
                    < self@.listeners[i].config.conditions@.len() ==> call_ensures(
                    condition_predicate,
                    (&#[trigger] self@.listeners[i].config.conditions@[j],),
                    false,
                ),
            !ignore ==> exists|i: int, j: int|
                0 <= i < self@.listeners.len() && 0 <= j
                    < self@.listeners[i].config.conditions@.len() && call_ensures(
                    condition_predicate,
                    (&#[trigger] self@.listeners[i].config.conditions@[j],),
                    true,
                ),
    {
        let mut i: usize = 0;
        while i < self.listeners.len()
            invariant
                i <= self.listeners@.len(),
                forall|c: &Condition| call_requires(condition_predicate, (c,)),
                forall|a: int, b: int|
                    0 <= a < i && 0 <= b < self.listeners@[a].config.conditions@.len()
                        ==> call_ensures(
                        condition_predicate,
                        (&#[trigger] self.listeners@[a].config.conditions@[b],),
                        false,
                    ),
            decreases self.listeners@.len() - i,
        {
            let conditions = &self.listeners[i].config.conditions;
            let mut j: usize = 0;
            while j < conditions.len()
                invariant
                    j <= conditions@.len(),
                    i < self.listeners@.len(),
                    conditions@ == self.listeners@[i as int].config.conditions@,
                    forall|c: &Condition| call_requires(condition_predicate, (c,)),
                    forall|b: int|
                        0 <= b < j ==> call_ensures(
                            condition_predicate,
                            (&#[trigger] conditions@[b],),
                            false,
                        ),
                decreases conditions@.len() - j,
            {
                if condition_predicate(&conditions[j]) {
                    assert(call_ensures(
                        condition_predicate,
                        (&self@.listeners[i as int].config.conditions@[j as int],),
                        true,
                    ));
                    return false;
                }
                j = j + 1;
            }
            i = i + 1;
        }
        true
    }

    /// Which readings of the power service the listeners' conditions wait
    /// for.
    pub fn power_watch(&self) -> (watch: PowerWatch)
        ensures
            watch == self@.power_watch(),
    {
        let ignore_on_battery = self.should_ignore(Condition::is_on_battery);
        let ignore_battery_percentage = self.should_ignore(Condition::is_on_charge);
        let ignore_battery_state = self.should_ignore(Condition::is_on_battery_state);
        let ignore_battery_level = self.should_ignore(Condition::is_on_battery_level);
        PowerWatch::new(
            ignore_on_battery,
            ignore_battery_percentage,
            ignore_battery_state,
            ignore_battery_level,
        )
    }

    /// Gives every listener a notification exactly if its timer should run,
    /// given the USB devices that are plugged in, and returns what that
    /// takes: in the listeners' order, a new notification for each listener
    /// that lacks one, the end of the notification for each listener that
    /// must not have one. Listeners that are as they should be are left
    /// alone.
    pub fn reconcile(&mut self, usb: &Option<Vec<UsbDeviceId>>) -> (actions: Vec<Action>)
        requires
            old(self)@.sound(),
        ensures
            (final(self)@, actions@) == old(self)@.reconcile(usb_view(*usb)),
            final(self).wf(),
            final(self).has_usb() == old(self).has_usb(),
    {
        let ghost before = self@;
        let ghost devices = usb_view(*usb);
        let inhibited = self.inhibitors.active();
        let mut actions: Vec<Action> = Vec::new();
        let mut i: usize = 0;
        while i < self.listeners.len()
            invariant
                i <= before.listeners.len(),
                before.sound(),
                devices == usb_view(*usb),
                inhibited == before.inhibitors.spec_active(),
                self.listeners@.len() == before.listeners.len(),
                self.state == before.state,
                self.config == before.config,
                self.inhibitors == before.inhibitors,
                self.power@ == before.power,
                self.has_usb() == old(self).has_usb(),
                forall|k: int|
                    0 <= k < i ==> #[trigger] self.listeners@[k] == before.reconciled_listener(
                        devices,
                        k,
                    ),
                forall|k: int|
                    i <= k < before.listeners.len() ==> #[trigger] self.listeners@[k]
                        == before.listeners[k],
                actions@ == before.reconcile_actions_upto(devices, i as nat),
            decreases before.listeners.len() - i,
        {
            let eligible = !inhibited && evaluate(&self.power, usb, &self.listeners[i].config.conditions);
            if eligible {
                if self.listeners[i].notification.is_none() {
                    let timeout_millis = self.listeners[i].config.timeout_millis();
                    self.listeners[i].notification = Some(IdleNotification { timeout_millis });
                    actions.push(Action::CreateNotification { slot: Slot::Listener(i), timeout_millis });
                }
            } else if self.listeners[i].notification.is_some() {
                self.listeners[i].notification = None;
                actions.push(Action::DestroyNotification { slot: Slot::Listener(i) });
            }
            assert(actions@ =~= before.reconcile_actions_upto(devices, i as nat)
                + before.listener_actions(devices, i as int));
            i = i + 1;
        }
        proof {
            assert(self@.listeners =~= before.reconciled(devices).listeners);
            lemma_reconcile_restores_invariant(before, devices);
        }
        actions
    }

    /// Which USB devices are plugged in, as far as the engine can tell. It
    /// asks only if a listener has a condition on them.
    fn usb_devices(&self) -> (usb: Option<Vec<UsbDeviceId>>)
        ensures
            usb is Some ==> self.has_usb() && self@.watches_usb(),
    {
        match &self.usb_context {
            Some(context) => {
                if self.should_ignore(Condition::is_on_usb) {
                    None
                } else {
                    plugged_devices(context)
                }
            },
            None => None,
        }
    }

    /// Reconciles the listeners with the USB devices that are plugged in at
    /// this moment: see [`Moxidle::reconcile`]. The devices are asked for
    /// only if a listener has a condition on them, and an engine that cannot
    /// ask reconciles as if they could not be told.
    pub fn reset_idle_timers(&mut self) -> (actions: Vec<Action>)
        requires
            old(self)@.sound(),
        ensures
            exists|usb: Option<Seq<UsbDeviceId>>|
                (final(self)@, actions@) == #[trigger] old(self)@.reconcile(usb),
            !old(self).has_usb() || !old(self)@.watches_usb() ==> (final(self)@, actions@) == old(
                self,
            )@.reconcile(None),
            final(self).wf(),
            final(self).has_usb() == old(self).has_usb(),
    {
        let usb = self.usb_devices();
        let actions = self.reconcile(&usb);
        actions
    }

    /// Takes up a new configuration: ends the notifications of all
    /// listeners, in their order, and puts the new listeners in the place of
    /// the old ones, without notifications. Reconciliation then starts the
    /// timers that should run. Every new listener's idle time must fit, in
    /// milliseconds, the 32 bits in which the compositor takes it.
    pub fn reload(&mut self, config: MoxidleConfig, listener_configs: Vec<ListenerConfig>) -> (actions:
        Vec<Action>)
        requires
            old(self).wf(),
            all_fit(listener_configs@),
        ensures
            (final(self)@, actions@) == old(self)@.reload(config, listener_configs@),
            final(self).wf(),
            final(self).has_usb() == old(self).has_usb(),
    {
        let ghost before = self@;
        let ghost configs = listener_configs@;
        let mut actions: Vec<Action> = Vec::new();
        let mut i: usize = 0;
        while i < self.listeners.len()
            invariant
                i <= self.listeners@.len(),
                *self == *old(self),
                before == self@,
                actions@ == before.disarm_actions_upto(i as nat),
            decreases self.listeners@.len() - i,
        {
            if self.listeners[i].notification.is_some() {
                actions.push(Action::DestroyNotification { slot: Slot::Listener(i) });
            }
            i = i + 1;
        }
        self.listeners = Moxidle::listeners_of(listener_configs);
        self.config = config;
        proof {
            lemma_reload_keeps_invariant(before, config, configs);
        }
        actions
    }

    fn lock(&mut self, now: u64) -> (actions: Vec<Action>)
        requires
            old(self).wf(),
        ensures
            (final(self)@, actions@) == old(self)@.lock(now, old(self)@.config.lock_cmd),
            final(self).has_usb() == old(self).has_usb(),
    {
        let mut actions: Vec<Action> = Vec::new();
        if self.state.lock_state == LockState::Locked {
            return actions;
        }
        match &self.config.lock_cmd {
            Some(command) => {
                actions.push(Action::Execute(command.clone()));
            },
            None => {},
        }
        if self.state.set_lock_state(LockState::Locked, now) {
            actions.push(Action::EmitActiveChanged);
        }
        if self.state.notification.is_none() {
            self.state.notification = Some(IdleNotification { timeout_millis: 0 });
            actions.push(Action::CreateNotification { slot: Slot::LockProbe, timeout_millis: 0 });
        }
        actions
    }

    fn unlock(&mut self, run_command: bool) -> (actions: Vec<Action>)
        requires
            old(self).wf(),
        ensures
            (final(self)@, actions@) == old(self)@.unlock(
                if run_command {
                    old(self)@.config.unlock_cmd
                } else {
                    None
                },
            ),
            final(self).has_usb() == old(self).has_usb(),
    {
        let mut actions: Vec<Action> = Vec::new();
        if self.state.lock_state == LockState::Unlocked {
            return actions;
        }
        if run_command {
            match &self.config.unlock_cmd {
                Some(command) => {
                    actions.push(Action::Execute(command.clone()));
                },
                None => {},
            }
        }
        if self.state.set_lock_state(LockState::Unlocked, 0) {
            actions.push(Action::EmitActiveChanged);
        }
        if self.state.notification.is_some() {
            self.state.notification = None;
            actions.push(Action::DestroyNotification { slot: Slot::LockProbe });
        }
        assert(actions@ =~= old(self)@.unlock(
            if run_command {
                old(self)@.config.unlock_cmd
            } else {
                None
            },
        ).1);
        actions
    }

    fn run(command: Option<&String>) -> (actions: Vec<Action>)
        ensures
            actions@ == run(
                match command {
                    Some(c) => Some(*c),
                    None => None,
                },
            ),
    {
        let mut actions: Vec<Action> = Vec::new();
        match command {
            Some(c) => {
                actions.push(Action::Execute(c.clone()));
            },
            None => {},
        }
        actions
    }

    /// Takes one event at the time `now`, a reading of the clock in
    /// nanoseconds, while the USB devices are `usb`, and returns what the
    /// host must do about it.
    pub fn step(&mut self, event: Event, now: u64, usb: &Option<Vec<UsbDeviceId>>) -> (actions: Vec<
        Action,
    >)
        requires
            old(self).wf(),
        ensures
            (final(self)@, actions@) == old(self)@.step(event, now, usb_view(*usb)),
            final(self).wf(),
            final(self).has_usb() == old(self).has_usb(),
    {
        proof {
            lemma_step_keeps_invariant(self@, event, now, usb_view(*usb));
        }
        match event {
            Event::GetLockState => {
                let mut actions: Vec<Action> = Vec::new();
                actions.push(Action::ReplyLockState(self.state.lock_state));
                actions
            },
            Event::GetActiveTime => {
                let mut actions: Vec<Action> = Vec::new();
                actions.push(Action::ReplyActiveTime(self.state.get_active_seconds(now)));
                assert(actions@ =~= seq![
                    Action::ReplyActiveTime(self@.state.active_seconds(now)),
                ]);
                actions
            },
            Event::BatteryState(state) => {
                self.power.update_state(state);
                self.reconcile(usb)
            },
            Event::BatteryLevel(level) => {
                self.power.update_level(level);
                self.reconcile(usb)
            },
            Event::OnBattery(on_battery) => {
                self.power.update_source(on_battery);
                self.reconcile(usb)
            },
            Event::BatteryPercentage(battery) => {
                self.power.update_percentage(battery);
                self.reconcile(usb)
            },
            Event::SimulateUserActivity | Event::Usb => self.reconcile(usb),
            Event::ScreenSaverInhibit(inhibited) => {
                self.inhibitors.dbus_inhibitor = inhibited;
                self.reconcile(usb)
            },
            Event::BlockInhibited(inhibited) => {
                if inhibited != self.inhibitors.systemd_inhibitor {
                    self.inhibitors.systemd_inhibitor = inhibited;
                    self.reconcile(usb)
                } else {
                    Vec::new()
                }
            },
            Event::AudioInhibit(inhibited) => {
                self.inhibitors.audio_inhibitor = inhibited;
                self.reconcile(usb)
            },
            Event::SessionLocked(locked) => {
                if locked {
                    self.lock(now)
                } else {
                    self.unlock(true)
                }
            },
            Event::ScreenSaverLock => {
                if self.config.lock_cmd.is_some() {
                    self.lock(now)
                } else {
                    Vec::new()
                }
            },
            Event::PrepareForSleep(sleep) => {
                if sleep {
                    Moxidle::run(self.config.before_sleep_cmd.as_ref())
                } else {
                    Moxidle::run(self.config.after_sleep_cmd.as_ref())
                }
            },
        }
    }

    /// Whether an event makes the engine look at the USB devices.
    fn consults_usb(&self, event: &Event) -> (consults: bool)
        ensures
            consults == self@.consults_usb(*event),
    {
        match event {
            Event::BatteryState(_)
            | Event::BatteryLevel(_)
            | Event::OnBattery(_)
            | Event::BatteryPercentage(_)
            | Event::SimulateUserActivity
            | Event::Usb
            | Event::ScreenSaverInhibit(_)
            | Event::AudioInhibit(_) => true,
            Event::BlockInhibited(inhibited) => *inhibited != self.inhibitors.systemd_inhibitor,
            _ => false,
        }
    }

    /// Takes one event at the time `now`, a reading of the clock in
    /// nanoseconds, and returns what the host must do about it: what
    /// [`Moxidle::step`] returns for the USB devices that are plugged in at
    /// this moment. The devices are asked for only if the event calls for
    /// reconciliation and a listener has a condition on them, and an engine
    /// that cannot ask goes on as if they could not be told.
    pub fn handle_app_event(&mut self, event: Event, now: u64) -> (actions: Vec<Action>)
        requires
            old(self).wf(),
        ensures
            exists|usb: Option<Seq<UsbDeviceId>>|
                (final(self)@, actions@) == #[trigger] old(self)@.step(event, now, usb),
            !old(self).has_usb() || !old(self)@.watches_usb() || !old(self)@.consults_usb(event)
                ==> (final(self)@, actions@) == old(self)@.step(event, now, None),
            final(self).wf(),
            final(self).has_usb() == old(self).has_usb(),
    {
        let usb = if self.consults_usb(&event) {
            self.usb_devices()
        } else {
            None
        };
        let actions = self.step(event, now, &usb);
        actions
    }

    /// Takes a report of the idle notification kept for `slot` and returns
    /// what the host must do about it.
    pub fn handle_notification(&mut self, slot: Slot, report: NotificationEvent) -> (actions: Vec<
        Action,
    >)
        requires
            old(self).wf(),
        ensures
            (final(self)@, actions@) == old(self)@.notified(slot, report),
            final(self).wf(),
            final(self).has_usb() == old(self).has_usb(),
    {
        proof {
            lemma_notified_keeps_invariant(self@, slot, report);
        }
        match slot {
            Slot::LockProbe => {
                if self.state.notification.is_some() && report == NotificationEvent::Resumed {
                    self.unlock(false)
                } else {
                    Vec::new()
                }
            },
            Slot::Listener(i) => {
                if i < self.listeners.len() && self.listeners[i].notification.is_some() {
                    match report {
                        NotificationEvent::Idled => Moxidle::run(self.listeners[i].on_timeout()),
                        NotificationEvent::Resumed => Moxidle::run(self.listeners[i].on_resume()),
                    }
                } else {
                    Vec::new()
                }
            },
        }
    }
}

} // verus!
