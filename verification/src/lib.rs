//! Verified core of a typing trainer: per-transition bookkeeping, real-time
//! error classification of keystrokes, and the key-event controls.

pub mod model;
pub mod controls;
pub mod corpus;
pub mod session;
