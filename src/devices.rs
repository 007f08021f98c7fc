//! Device abstraction: events, state, codecs and the refresh engine.

pub mod event;
pub mod state;
pub mod codec;
pub mod cloud_iii_wireless;
pub mod cloud_alpha_wireless;
pub mod cloud_ii_core_wireless;
pub mod cloud_ii_wireless;
pub mod cloud_ii_wireless_dts;
pub mod cloud_iii_s_wireless;
pub mod device;
pub mod refresh;
pub mod laws;
pub mod display;
pub mod poll;
