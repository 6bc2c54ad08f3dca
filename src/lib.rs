//! Drives a motorised standing desk to a requested height: the telemetry and
//! command protocol, the search for the device, and the closed-loop controller,
//! each a state machine whose driver performs the transport calls.

pub mod codec;
pub mod input;
pub mod locator;
pub mod motion;
pub mod session;
