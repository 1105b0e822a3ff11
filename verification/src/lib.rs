//! Verified core of a small MIDI utility: device enumeration records,
//! the output-channel lifecycle, and the sysex-transmission decisions,
//! all modelled over plain values at the boundary to the native MIDI
//! service that the surrounding process drives.

pub mod device;
pub mod error;
pub mod hexdata;
pub mod output;
pub mod portmidi;
