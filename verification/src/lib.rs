//! Two-channel voltage limiter: the control logic of a board that samples two
//! analog inputs, derives a safety-limited pair of analog outputs from them
//! and from two user-adjustable setpoints, and shows what it does.
//!
//! The library holds what the program decides and computes; reading the
//! converters, committing codes, drawing and scheduling are the caller's.
//!
//! - [`volts`]: voltage levels in fixed point, 40960 units to the volt.
//! - [`state`]: the sample store and the output store.
//! - [`logics`]: the limiter, from raw samples and setpoints to real outputs
//!   and actuation codes.
//! - [`buttons`]: button events and the setpoint steps they stand for.
//! - [`tasks`]: the bodies of the control, actuation, button and diagnostics
//!   tasks and of the two sample routines.
//! - [`system`]: the stores taken together, and what holds of them after any
//!   run of tasks and routines.
//! - [`dac`]: the codes held for the output converter.
//! - [`delay`]: busy-wait lengths in processor cycles.
//! - [`text`], [`render`], [`diagnostics`]: the message buffer, numbers as
//!   text, and the diagnostic text of a channel.
//! - [`terminal`]: places on the screen and the cursor of the running text.

pub mod buttons;
pub mod dac;
pub mod delay;
pub mod diagnostics;
pub mod logics;
pub mod render;
pub mod state;
pub mod system;
pub mod tasks;
pub mod terminal;
pub mod text;
pub mod volts;
