//! Data layout of the native MIDI service boundary: the status codes its
//! calls return, the device slot identifier, and an owned copy of one raw
//! device-info record as the surrounding process reads it out.

use vstd::prelude::*;

verus! {

/// Identifier of a device slot in the native service's internal table.
/// Valid identifiers are service-defined, `0..count`.
pub type PmDeviceId = i32;

/// Scheduling timestamp for an outgoing message; `0` means "now".
pub type PmTimestamp = i32;

/// Opaque token standing for a native output-stream handle. The native
/// service hands it out on a successful open; the core never looks inside
/// it, only stores it and gives it back for the release call.
pub type StreamHandle = usize;

/// The closed set of status codes a native call can return. Every code
/// other than `NoError` means the call failed; no output parameter of a
/// failed call may be assumed to hold a defined value.
#[derive(Clone, Copy, Debug, PartialEq, Eq, Structural)]
pub enum PmError {
    NoError,
    NoData,
    GotData,
    HostError,
    InvalidDeviceId,
    InsufficientMemory,
    BufferTooSmall,
    BufferOverflow,
    BadPtr,
    BadData,
    InternalError,
    BufferMaxSize,
}

/// An owned copy of one raw device-info record. The native service exposes
/// such a record as borrowed, null-terminated memory; the process layer
/// copies the two name buffers (without their terminators) and the flag
/// words into this value before any of it is interpreted, so the core
/// never touches the service's memory.
#[derive(Clone, Debug)]
pub struct PmDeviceInfo {
    /// Layout version the service reported; not interpreted by the core.
    pub struct_version: i32,
    /// Bytes of the interface-name buffer, terminator excluded, not yet
    /// validated as text.
    pub interface: Vec<u8>,
    /// Bytes of the device-name buffer, terminator excluded, not yet
    /// validated as text.
    pub name: Vec<u8>,
    /// Input-capability flag as reported; `1` means input-capable.
    pub input: i32,
    /// Output-capability flag as reported; `1` means output-capable.
    pub output: i32,
    /// Whether the service currently has the device open; not interpreted
    /// by the core.
    pub opened: i32,
}

} // verus!
