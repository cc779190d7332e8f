//! Core of a focus-monitoring assistant: a periodic monitoring scheduler,
//! a screen-capture/OCR/classification pipeline, a cooldown-gated
//! intervention policy, and a work/break session timer.
//!
//! Everything stateful is modelled over plain values (integer timestamps,
//! strings, vectors); the operating system, the OCR engine, the network
//! backend and the file store are driven by a thin unverified shell that
//! feeds their answers into the functions here.

pub mod capture;
pub mod classify;
pub mod codec;
pub mod config;
pub mod events;
pub mod insights;
pub mod intervene;
pub mod model;
pub mod scheduler;
pub mod settings;
pub mod store;
pub mod text;
pub mod timer;
