//! A small character-device core: a fixed-capacity shared byte buffer exposed
//! through open/read/write/seek, a binary capture-command decoder, and the
//! state machine of a background capture-control loop that drives an external
//! video source and relays frames over an outbound stream connection.
//!
//! Everything here is pure logic over plain values. The platform glue (device
//! registration, user-space copies, the device-control and socket calls)
//! lives outside this crate and hands these functions plain bytes and
//! outcomes.

pub mod buffer;
pub mod camera;
pub mod capture;
pub mod command;
pub mod errors;
pub mod net;
pub mod registration;
