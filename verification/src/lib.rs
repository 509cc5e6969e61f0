//! Session and command orchestration for a single account's vehicles.
//!
//! The crate decides; it performs no input or output itself. A driver hands a
//! [`controller::Request`] to the [`controller::Controller`], carries out each
//! [`effect::Effect`] that comes back, and returns what happened as an
//! [`effect::Reply`], until the controller reports the request as finished.

pub mod command;
pub mod controller;
pub mod credentials;
pub mod effect;
pub mod error;
pub mod event_log;
pub mod laws;
pub mod session;
pub mod telemetry;
pub mod text;
