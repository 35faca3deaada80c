//! Avatar parameter state, OSC message handling and file layout for an
//! avatar-state saver that talks OSC with VRChat.
pub mod text;
pub mod params;
pub mod osc;
pub mod session;
pub mod transmit;
pub mod paths;
pub mod config;
pub mod setup;
pub mod avatar_data;
