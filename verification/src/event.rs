//! What the engine is told, and what it asks to be done.
use crate::float::Float64;
use crate::upower::{BatteryLevel, BatteryState};
use vstd::prelude::*;

verus! {

/// Whether the session is locked.
#[derive(Clone, Copy, Debug, PartialEq, Eq, Structural)]
pub enum LockState {
    Locked,
    Unlocked,
}

/// Something that happened outside and that the engine must take into
/// account.
#[derive(Clone, Copy, Debug, PartialEq, Eq)]
pub enum Event {
    /// Somebody asks for how long the session has been locked.
    GetActiveTime,
    /// Somebody asks whether the session is locked.
    GetLockState,
    BatteryState(BatteryState),
    BatteryLevel(BatteryLevel),
    /// Whether the machine runs on battery.
    OnBattery(bool),
    /// The battery's charge in percent.
    BatteryPercentage(Float64),
    /// Whether any application holds a screen saver inhibition.
    ScreenSaverInhibit(bool),
    SimulateUserActivity,
    /// The session manager locked (`true`) or unlocked the session.
    SessionLocked(bool),
    /// An application asks for the session to be locked.
    ScreenSaverLock,
    /// Whether the session manager holds an inhibition that blocks idling.
    BlockInhibited(bool),
    /// The machine is about to sleep (`true`) or has just woken up.
    PrepareForSleep(bool),
    /// The set of plugged USB devices changed.
    Usb,
    /// Whether any audio stream is playing.
    AudioInhibit(bool),
}

/// What an idle notification of the compositor reports.
#[derive(Clone, Copy, Debug, PartialEq, Eq, Structural)]
pub enum NotificationEvent {
    /// No input for the notification's whole timeout.
    Idled,
    /// The first input after that.
    Resumed,
}

/// The owner of an idle notification.
#[derive(Clone, Copy, Debug, PartialEq, Eq, Structural)]
pub enum Slot {
    /// The notification that watches for input while the session is locked.
    LockProbe,
    /// The timer of the listener at this place in the configuration.
    Listener(usize),
}

/// An idle notification that the compositor holds for the engine.
#[derive(Clone, Copy, Debug, PartialEq, Eq, Structural)]
pub struct IdleNotification {
    /// The idle time after which it fires, as it was created with.
    pub timeout_millis: u32,
}

/// Something the engine asks its host to do. The host does these in the
/// order in which it gets them.
#[derive(Clone, Debug, PartialEq, Eq)]
pub enum Action {
    /// Run the command in a shell, without waiting for it.
    Execute(String),
    /// Ask the compositor for an idle notification and keep it for `slot`.
    CreateNotification { slot: Slot, timeout_millis: u32 },
    /// Destroy the idle notification kept for `slot`.
    DestroyNotification { slot: Slot },
    /// Tell the bus that the lock state changed.
    EmitActiveChanged,
    /// Answer the one who asked whether the session is locked.
    ReplyLockState(LockState),
    /// Answer the one who asked for how many seconds it has been locked.
    ReplyActiveTime(u32),
}

} // verus!
