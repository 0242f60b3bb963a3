//! Runtime core of a wrist-worn device: a bus arbiter that serializes the
//! peripheral clients' traffic on one two-wire bus, a register client for the
//! power controller, touch classification, and an application loop whose every
//! step is bounded and followed by a renewal of the hardware watchdog.

pub mod app;
pub mod axp192;
pub mod bus;
pub mod liveness;
pub mod touch;
