//! Verified core of a USB host-controller library: a bounds-checked walker
//! over chained USB descriptors, typed descriptor views with derived
//! power/packet figures, the fixed-layout host-controller-interface message
//! codec, the controller/port/device/endpoint lifecycle state machines, and
//! a single-resolution completion bridge for one-shot native callbacks.

pub mod bridge;
pub mod capabilities;
pub mod controller;
pub mod cursor;
pub mod device;
pub mod endpoint;
pub mod errors;
pub mod interface;
pub mod message;
pub mod port;
pub mod requests;
pub mod types;
pub mod views;
