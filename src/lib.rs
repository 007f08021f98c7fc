//! Query and control of wireless headsets over USB HID: per-model packet
//! codecs, capability probing, and the refresh engine that folds device
//! reports into a state snapshot.

pub mod devices;
pub mod eq;
pub mod band;
