//! Verified decision logic for the Logitech Spotlight presenter highlight:
//! click detection from plain HID mouse reports, the agent's on/off
//! highlight state, and the choices the host loops around them make.

pub mod presenter;
pub mod binding;
pub mod highlight;
pub mod plan;
pub mod supervisor;
pub mod tap;
pub mod diag;
