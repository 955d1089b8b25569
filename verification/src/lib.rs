//! Core logic of a first-run welcome screen: a single persistent user
//! preference — launch the application automatically at login — kept
//! consistent between the in-memory toggle shown to the user and the
//! operating system's autostart registration, even though the OS call is an
//! external, fallible side effect.
//!
//! The crate is organised in three layers:
//!
//! - [`registrar`]: the application identity (name, executable path, launch
//!   arguments) and a thin, fallible adapter over the host's autostart
//!   mechanism.
//! - [`reconcile`]: the mathematical model of the preference state machine,
//!   with proofs of its laws (idempotence, round-trip, failure isolation).
//! - [`controller`]: the owner of the `launch_on_start` preference; it
//!   initialises the preference by reconciling against the registrar at
//!   startup and applies every later toggle intent on a best-effort basis.

pub mod controller;
pub mod reconcile;
pub mod registrar;
