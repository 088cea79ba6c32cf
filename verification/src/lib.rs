//! Core of a wireless network settings panel: a verified engine that merges
//! the state a network-management daemon reports (devices, visible access
//! points, saved connection profiles, the active connection) into a coherent,
//! sorted snapshot, and decides which operation a user action maps to.
//!
//! All remote calls to the daemon happen outside this crate; the library works
//! on the plain values those calls return and is verified end to end.

pub mod dispatch;
pub mod icon;
pub mod profiles;
pub mod render;
pub mod resolver;
pub mod settings;
pub mod snapshot;
pub mod sync;
