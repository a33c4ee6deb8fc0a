//! The decision-making core of a session idle daemon: which idle timers are
//! armed, who inhibits them, whether the session is locked, and which commands
//! run when any of that changes.
//!
//! The daemon's host turns what happens outside (power readings, session
//! signals, inhibitions, audio streams, USB hot-plugging, idle notifications
//! of the compositor) into [`event::Event`]s and hands them, one at a time, to
//! the engine, [`reactor::Moxidle`]. The engine answers each with a list of
//! [`event::Action`]s for the host to carry out. What the engine does is laid
//! down by the model in [`state`]; [`laws`] holds what follows from it.
//!
//! * [`float`]: binary64 numbers by their bits, for charges and thresholds
//! * [`text`]: comparing and searching text
//! * [`upower`]: the power status
//! * [`config`]: the configuration
//! * [`usb`]: USB device names, and the devices that are plugged in
//! * [`evaluate`]: whether a listener's conditions hold
//! * [`event`]: events and actions
//! * [`state`]: the engine's state and what each event makes of it
//! * [`reactor`]: the engine
//! * [`laws`]: what holds of the engine whatever happens
//! * [`screensaver`]: the registry of inhibitions held by applications
//! * [`audio`]: whether audio plays
//! * [`login`]: reports of the session manager
pub mod audio;
pub mod config;
pub mod evaluate;
pub mod event;
pub mod float;
pub mod laws;
pub mod login;
pub mod reactor;
pub mod screensaver;
pub mod state;
pub mod text;
pub mod upower;
pub mod usb;
