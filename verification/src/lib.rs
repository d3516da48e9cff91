//! Verified core of a monitor-processing tool: a fixed roster of monitor
//! records whose measurements are refreshed and snapshotted under one lock
//! for the length of a wall-clock run window.

pub mod clock;
pub mod generator;
pub mod monitor;
pub mod naming;
pub mod store;
pub mod window;
pub mod worker;
