//! What holds of the engine whatever happens to it.
use crate::config::{all_fit, Condition, ListenerConfig, MoxidleConfig};
use crate::evaluate::{condition_holds, conditions_hold};
use crate::event::{Action, Event, LockState, NotificationEvent, Slot};
use crate::screensaver::Registry;
use crate::state::{EngineState, Inhibitors};
use crate::upower::{PowerSource, PowerStatus};
use crate::usb::UsbDeviceId;
use vstd::prelude::*;

verus! {

/// Reconciliation leaves every listener with a notification exactly if its
/// timer should run, and so restores the engine's invariant: while anybody
/// inhibits idling, no listener has a notification.
pub proof fn lemma_reconcile_restores_invariant(engine: EngineState, usb: Option<Seq<UsbDeviceId>>)
    requires
        engine.sound(),
    ensures
        engine.reconciled(usb).inv(),
        engine.reconciled(usb).listeners.len() == engine.listeners.len(),
        forall|i: int|
            0 <= i < engine.listeners.len() ==> ((#[trigger] engine.reconciled(
                usb,
            ).listeners[i]).notification is Some <==> engine.eligible(usb, i)),
{
    let after = engine.reconciled(usb);
    assert forall|i: int| 0 <= i < after.listeners.len() implies (#[trigger] after.listeners[i]).sound()
        && (after.listeners[i].notification is Some <==> engine.eligible(usb, i)) by {
        assert(engine.listeners[i].sound());
        assert(after.listeners[i] == engine.reconciled_listener(usb, i));
    }
}

/// The engine's invariant survives every event: if, before an event, no
/// listener has a notification while anybody inhibits idling, the same holds
/// after it.
pub proof fn lemma_step_keeps_invariant(
    engine: EngineState,
    event: Event,
    now: u64,
    usb: Option<Seq<UsbDeviceId>>,
)
    requires
        engine.inv(),
    ensures
        engine.step(event, now, usb).0.inv(),
        engine.step(event, now, usb).0.listeners.len() == engine.listeners.len(),
{
    match event {
        Event::BatteryState(state) => {
            lemma_reconcile_restores_invariant(
                EngineState {
                    power: PowerStatus { state, ..engine.power },
                    ..engine
                },
                usb,
            );
        },
        Event::BatteryLevel(level) => {
            lemma_reconcile_restores_invariant(
                EngineState {
                    power: PowerStatus { level, ..engine.power },
                    ..engine
                },
                usb,
            );
        },
        Event::OnBattery(on_battery) => {
            lemma_reconcile_restores_invariant(
                EngineState {
                    power: PowerStatus {
                        source: if on_battery {
                            PowerSource::Battery
                        } else {
                            PowerSource::Plugged
                        },
                        ..engine.power
                    },
                    ..engine
                },
                usb,
            );
        },
        Event::BatteryPercentage(percentage) => {
            lemma_reconcile_restores_invariant(
                EngineState {
                    power: PowerStatus {
                        percentage: percentage.spec_clamp_percent(),
                        ..engine.power
                    },
                    ..engine
                },
                usb,
            );
        },
        Event::SimulateUserActivity | Event::Usb => {
            lemma_reconcile_restores_invariant(engine, usb);
        },
        Event::ScreenSaverInhibit(inhibited) => {
            lemma_reconcile_restores_invariant(
                EngineState {
                    inhibitors: Inhibitors {
                        dbus_inhibitor: inhibited,
                        ..engine.inhibitors
                    },
                    ..engine
                },
                usb,
            );
        },
        Event::BlockInhibited(inhibited) => {
            if inhibited != engine.inhibitors.systemd_inhibitor {
                lemma_reconcile_restores_invariant(
                    EngineState {
                        inhibitors: Inhibitors {
                            systemd_inhibitor: inhibited,
                            ..engine.inhibitors
                        },
                        ..engine
                    },
                    usb,
                );
            }
        },
        Event::AudioInhibit(inhibited) => {
            lemma_reconcile_restores_invariant(
                EngineState {
                    inhibitors: Inhibitors {
                        audio_inhibitor: inhibited,
                        ..engine.inhibitors
                    },
                    ..engine
                },
                usb,
            );
        },
        _ => {},
    }
}

/// The engine's invariant survives every report of a notification.
pub proof fn lemma_notified_keeps_invariant(
    engine: EngineState,
    slot: Slot,
    report: NotificationEvent,
)
    requires
        engine.inv(),
    ensures
        engine.notified(slot, report).0.inv(),
        engine.notified(slot, report).0.listeners == engine.listeners,
{
}

/// Reconciling twice in a row, with nothing changed in between, asks for
/// nothing the second time and changes nothing.
pub proof fn lemma_reconcile_is_idempotent(engine: EngineState, usb: Option<Seq<UsbDeviceId>>)
    ensures
        engine.reconciled(usb).reconcile(usb) == (engine.reconciled(usb), Seq::<
            Action,
        >::empty()),
{
    let once = engine.reconciled(usb);
    assert forall|i: int| 0 <= i < once.listeners.len() implies once.reconciled_listener(usb, i)
        == once.listeners[i] && once.listener_actions(usb, i).len() == 0 by {
        assert(once.listeners[i] == engine.reconciled_listener(usb, i));
        assert(once.eligible(usb, i) == engine.eligible(usb, i));
    }
    assert(once.reconciled(usb).listeners =~= once.listeners);
    lemma_no_actions(once, usb, once.listeners.len());
}

/// Listeners that ask for nothing ask for nothing together.
proof fn lemma_no_actions(engine: EngineState, usb: Option<Seq<UsbDeviceId>>, n: nat)
    requires
        n <= engine.listeners.len(),
        forall|i: int| 0 <= i < engine.listeners.len() ==> engine.listener_actions(usb, i).len() == 0,
    ensures
        engine.reconcile_actions_upto(usb, n) == Seq::<Action>::empty(),
    decreases n,
{
    if n > 0 {
        lemma_no_actions(engine, usb, (n - 1) as nat);
        assert(engine.listener_actions(usb, n - 1).len() == 0);
        assert(engine.reconcile_actions_upto(usb, n) =~= Seq::<Action>::empty());
    }
}

/// Which timers run after reconciliation depends on the power status, the
/// inhibitors, the USB devices and the listeners' conditions alone, not on
/// which timers ran before.
pub proof fn lemma_reconcile_forgets_history(
    a: EngineState,
    b: EngineState,
    usb: Option<Seq<UsbDeviceId>>,
)
    requires
        a.power == b.power,
        a.inhibitors == b.inhibitors,
        a.listeners.len() == b.listeners.len(),
        forall|i: int|
            0 <= i < a.listeners.len() ==> (#[trigger] a.listeners[i]).config
                == b.listeners[i].config,
    ensures
        forall|i: int|
            0 <= i < a.listeners.len() ==> ((#[trigger] a.reconciled(usb).listeners[i]).notification
                is Some <==> b.reconciled(usb).listeners[i].notification is Some),
{
    assert forall|i: int| 0 <= i < a.listeners.len() implies ((#[trigger] a.reconciled(
        usb,
    ).listeners[i]).notification is Some <==> b.reconciled(usb).listeners[i].notification
        is Some) by {
        assert(a.listeners[i].config == b.listeners[i].config);
        assert(a.eligible(usb, i) == b.eligible(usb, i));
        assert(a.reconciled(usb).listeners[i] == a.reconciled_listener(usb, i));
        assert(b.reconciled(usb).listeners[i] == b.reconciled_listener(usb, i));
    }
}

/// A signal for the lock state that the session is in already does nothing:
/// it asks for no action, so it runs no command, and it changes nothing.
pub proof fn lemma_lock_signal_is_edge_triggered(
    engine: EngineState,
    locked: bool,
    now: u64,
    usb: Option<Seq<UsbDeviceId>>,
)
    requires
        locked == (engine.state.lock_state == LockState::Locked),
    ensures
        engine.step(Event::SessionLocked(locked), now, usb) == (engine, Seq::<
            Action,
        >::empty()),
{
}

/// Of two equal lock signals in a row, the second does nothing, whatever
/// the state before the first and whenever the two arrive.
pub proof fn lemma_repeated_lock_signal(
    engine: EngineState,
    locked: bool,
    first: u64,
    second: u64,
    usb: Option<Seq<UsbDeviceId>>,
)
    ensures
        engine.step(Event::SessionLocked(locked), first, usb).0.step(
            Event::SessionLocked(locked),
            second,
            usb,
        ) == (engine.step(Event::SessionLocked(locked), first, usb).0, Seq::<
            Action,
        >::empty()),
{
}

/// Which USB devices are plugged in matters to reconciliation only through
/// the conditions on USB devices: with no such condition, reconciliation does
/// the same whatever is plugged in.
pub proof fn lemma_usb_matters_to_usb_conditions_only(
    engine: EngineState,
    a: Option<Seq<UsbDeviceId>>,
    b: Option<Seq<UsbDeviceId>>,
)
    requires
        !engine.watches_usb(),
    ensures
        engine.reconcile(a) == engine.reconcile(b),
{
    let pick = |c: Condition| c is UsbPlugged || c is UsbUnplugged;
    assert forall|i: int| 0 <= i < engine.listeners.len() implies engine.eligible(a, i)
        == engine.eligible(b, i) by {
        let conditions = engine.listeners[i].config.conditions@;
        assert forall|j: int| 0 <= j < conditions.len() implies condition_holds(
            engine.power,
            a,
            #[trigger] conditions[j],
        ) == condition_holds(engine.power, b, conditions[j]) by {
            assert(!pick(engine.listeners[i].config.conditions@[j]));
        }
        assert(conditions_hold(engine.power, a, conditions) == conditions_hold(
            engine.power,
            b,
            conditions,
        ));
    }
    assert(engine.reconciled(a).listeners =~= engine.reconciled(b).listeners);
    lemma_same_actions(engine, a, b, engine.listeners.len());
}

/// Listeners that are eligible under both of two sets of devices or under
/// neither ask for the same under both.
proof fn lemma_same_actions(
    engine: EngineState,
    a: Option<Seq<UsbDeviceId>>,
    b: Option<Seq<UsbDeviceId>>,
    n: nat,
)
    requires
        n <= engine.listeners.len(),
        forall|i: int|
            0 <= i < engine.listeners.len() ==> engine.eligible(a, i) == engine.eligible(b, i),
    ensures
        engine.reconcile_actions_upto(a, n) == engine.reconcile_actions_upto(b, n),
    decreases n,
{
    if n > 0 {
        lemma_same_actions(engine, a, b, (n - 1) as nat);
        assert(engine.eligible(a, n - 1) == engine.eligible(b, n - 1));
    }
}

/// With no condition on USB devices, an event does the same whatever is
/// plugged in.
pub proof fn lemma_step_without_usb_conditions(
    engine: EngineState,
    event: Event,
    now: u64,
    a: Option<Seq<UsbDeviceId>>,
    b: Option<Seq<UsbDeviceId>>,
)
    requires
        !engine.watches_usb(),
    ensures
        engine.step(event, now, a) == engine.step(event, now, b),
{
    let pick = |c: Condition| c is UsbPlugged || c is UsbUnplugged;
    assert forall|other: EngineState| other.listeners == engine.listeners implies other.reconcile(a)
        == #[trigger] other.reconcile(b) by {
        assert(other.has_condition(pick) == engine.has_condition(pick));
        lemma_usb_matters_to_usb_conditions_only(other, a, b);
    }
}

/// Taking up a new configuration leaves the engine sound and without any
/// listener's notification.
pub proof fn lemma_reload_keeps_invariant(
    engine: EngineState,
    config: MoxidleConfig,
    listeners: Seq<ListenerConfig>,
)
    requires
        engine.inv(),
        all_fit(listeners),
    ensures
        engine.reload(config, listeners).0.inv(),
        engine.reload(config, listeners).0.disarmed(),
{
}

/// The engine's record of the applications' inhibitions follows the
/// registry: if the record is right before a request to the registry, and the
/// engine takes the event that the request gives, if it gives one, the record
/// is right after it.
pub proof fn lemma_engine_follows_registry(
    engine: EngineState,
    before: Registry,
    after: Registry,
    now: u64,
    usb: Option<Seq<UsbDeviceId>>,
)
    requires
        engine.inhibitors.dbus_inhibitor == before.inhibited(),
    ensures
        match before.edge(after) {
            Some(event) => engine.step(event, now, usb).0.inhibitors.dbus_inhibitor
                == after.inhibited(),
            None => engine.inhibitors.dbus_inhibitor == after.inhibited(),
        },
{
}

/// A report of a listener's notification changes nothing in the engine, the
/// lock state least of all, and asks for one command at most.
pub proof fn lemma_listener_report_only_runs_a_command(
    engine: EngineState,
    listener: usize,
    report: NotificationEvent,
)
    ensures
        engine.notified(Slot::Listener(listener), report).0 == engine,
        engine.notified(Slot::Listener(listener), report).1.len() <= 1,
        forall|k: int|
            0 <= k < engine.notified(Slot::Listener(listener), report).1.len() ==> (
            #[trigger] engine.notified(Slot::Listener(listener), report).1[k]) is Execute,
{
}

} // verus!
