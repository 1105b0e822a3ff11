//! The output channel: sole owner of one native output-stream handle for
//! one device. The surrounding process performs the native calls and hands
//! their status codes in; every decision about what those outcomes mean —
//! whether a channel exists, what a write request carries, when the handle
//! is released — is made here.

use vstd::prelude::*;
use vstd::slice::slice_to_vec;
use crate::error::Error;
use crate::portmidi::{PmDeviceId, PmError, PmTimestamp, StreamHandle};

verus! {

/// Buffer size every output stream is opened with; the open request uses
/// no driver info and no timing callbacks.
pub const OPEN_BUFFER_SIZE: u32 = 1024;

/// Latency every output stream is opened with: unbuffered, no scheduling.
pub const OPEN_LATENCY: u32 = 0;

/// Timestamp placed on every outgoing message: deliver now.
pub const SEND_NOW: PmTimestamp = 0;

/// What an open attempt yields: on success the slot identifier and the
/// handle the service produced, on any other status that status wrapped
/// as the operation's error — and then no handle to clean up.
pub open spec fn spec_open(id: PmDeviceId, status: PmError, stream: StreamHandle) -> Result<
    (PmDeviceId, StreamHandle),
    Error,
> {
    if status is NoError {
        Ok((id, stream))
    } else {
        Err(Error::Native(status))
    }
}

/// What a send attempt yields: success exactly on `NoError`, any other
/// status wrapped as the operation's error.
pub open spec fn spec_send_outcome(status: PmError) -> Result<(), Error> {
    if status is NoError {
        Ok(())
    } else {
        Err(Error::Native(status))
    }
}

/// The handle a channel releases when it is closed.
pub open spec fn spec_close(p: OutputPort) -> StreamHandle {
    p.spec_stream()
}

/// An open output channel: the exclusive owner of one native stream
/// handle, tied to the device it was opened for. A value of this type
/// exists only after a successful open and is consumed by `close`, so the
/// handle can be released at most once and never before it was obtained.
#[derive(Debug)]
pub struct OutputPort {
    id: PmDeviceId,
    stream: StreamHandle,
}

/// One fully-formed write request: everything the process layer must hand
/// to the native write call, assembled by the owning channel.
#[derive(Clone, Debug, PartialEq)]
pub struct SysexRequest {
    /// The handle of the channel the message goes out on.
    pub stream: StreamHandle,
    /// Scheduling timestamp; always `SEND_NOW`.
    pub when: PmTimestamp,
    /// The payload, byte for byte as the caller supplied it; a zero-length
    /// payload stays zero-length.
    pub msg: Vec<u8>,
}

impl OutputPort {
    /// The device slot this channel was opened for.
    pub closed spec fn spec_id(self) -> PmDeviceId {
        self.id
    }

    /// The native handle this channel owns.
    pub closed spec fn spec_stream(self) -> StreamHandle {
        self.stream
    }

    /// Decides the outcome of an open attempt for slot `id`: `status` and
    /// `stream` are what the native open call reported back. A channel is
    /// constructed exactly on success, taking sole ownership of `stream`;
    /// on failure nothing is constructed, so there is no handle to close.
    pub fn new(id: PmDeviceId, status: PmError, stream: StreamHandle) -> (r: Result<
        OutputPort,
        Error,
    >)
        ensures
            r is Ok <==> spec_open(id, status, stream) is Ok,
            r matches Ok(p) ==> spec_open(id, status, stream) == Ok::<_, Error>(
                (p.spec_id(), p.spec_stream()),
            ),
            r matches Err(e) ==> spec_open(id, status, stream) == Err::<
                (PmDeviceId, StreamHandle),
                Error,
            >(e),
    {
        if status == PmError::NoError {
            Ok(OutputPort { id, stream })
        } else {
            Err(Error::Native(status))
        }
    }

    /// Assembles the write request for one sysex message: the whole
    /// payload, unchanged and unvalidated, on this channel's handle, to be
    /// delivered immediately. Framing bytes are the caller's business.
    pub fn send_sysex_msg(&self, data: &[u8]) -> (r: SysexRequest)
        ensures
            r.stream == self.spec_stream(),
            r.when == SEND_NOW,
            r.msg@ == data@,
    {
        SysexRequest { stream: self.stream, when: SEND_NOW, msg: slice_to_vec(data) }
    }

    /// Decides the outcome of a send attempt from the status the native
    /// write call returned. A failure does not touch the channel: the
    /// handle stays owned and the channel stays usable.
    pub fn send_outcome(&self, status: PmError) -> (r: Result<(), Error>)
        ensures
            r == spec_send_outcome(status),
    {
        if status == PmError::NoError {
            Ok(())
        } else {
            Err(Error::Native(status))
        }
    }

    /// The device slot this channel was opened for.
    pub fn device_id(&self) -> (r: PmDeviceId)
        ensures
            r == self.spec_id(),
    {
        self.id
    }

    /// Closes the channel, consuming it, and yields the handle the process
    /// layer must release. Consumption makes a second close, or any send
    /// after close, a type error rather than a runtime one.
    pub fn close(self) -> (r: StreamHandle)
        ensures
            r == spec_close(self),
    {
        self.stream
    }
}

/// A failed open leaves nothing behind: for any status other than
/// `NoError`, the open attempt yields an error and no channel, so no
/// handle exists to be closed or leaked.
pub proof fn lemma_failed_open_no_channel(id: PmDeviceId, status: PmError, stream: StreamHandle)
    requires
        status !is NoError,
    ensures
        spec_open(id, status, stream) is Err,
{
}

/// A successful open followed by a close releases exactly the handle that
/// was obtained: any channel the open yielded holds that handle, and
/// closing it yields it back, once — a second close cannot be expressed,
/// since `close` consumes the channel.
pub proof fn lemma_open_close_releases_once(
    id: PmDeviceId,
    stream: StreamHandle,
    p: OutputPort,
)
    requires
        spec_open(id, PmError::NoError, stream) == Ok::<_, Error>((p.spec_id(), p.spec_stream())),
    ensures
        spec_close(p) == stream,
{
}

} // verus!
