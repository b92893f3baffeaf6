//! Server-authoritative world simulation for a village strategy game:
//! resource accrual, timed build and training queues, army dispatch and
//! deterministic combat resolution, all on plain values.
//!
//! Ids are 128-bit numbers and instants are milliseconds since the epoch.
//! Every formula is computed over exact integers.

pub mod bignat;
pub mod config;
pub mod error;
pub mod models;
pub mod numeric;
pub mod services;
pub mod text;
