//! The device directory: turns raw device-info records into owned,
//! validated `DeviceInfo` values and enumerates a stable snapshot of the
//! whole device table.

use vstd::prelude::*;
use vstd::utf8::{valid_utf8, decode_utf8};
use crate::error::Error;
use crate::portmidi::{PmDeviceId, PmDeviceInfo};

verus! {

/// The direction a device supports: exactly one of input or output.
#[derive(Clone, Copy, Debug, PartialEq, Eq, Structural)]
pub enum IO {
    Input,
    Output,
}

impl IO {
    /// The direction word used in listings.
    pub fn label(&self) -> (r: &'static str)
        ensures
            self is Input ==> r@ == "input"@,
            self is Output ==> r@ == "output"@,
    {
        match self {
            IO::Input => "input",
            IO::Output => "output",
        }
    }
}

/// The direction encoded by a reported flag pair, or `None` for any
/// combination other than the two agreeing ones.
pub open spec fn spec_direction(input: i32, output: i32) -> Option<IO> {
    if input == 1 && output == 0 {
        Some(IO::Input)
    } else if input == 0 && output == 1 {
        Some(IO::Output)
    } else {
        None
    }
}

/// Classifies a reported flag pair; only input-only and output-only are
/// accepted.
pub fn direction_of(input: i32, output: i32) -> (r: Option<IO>)
    ensures
        r == spec_direction(input, output),
{
    if input == 1 && output == 0 {
        Some(IO::Input)
    } else if input == 0 && output == 1 {
        Some(IO::Output)
    } else {
        None
    }
}

/// One enumerated device: its slot identifier, both names as validated
/// text, and its direction.
#[derive(Clone, Debug, PartialEq)]
pub struct DeviceInfo {
    pub id: PmDeviceId,
    pub interface: String,
    pub name: String,
    pub io: IO,
}

/// Mathematical image of a `DeviceInfo`.
pub ghost struct DeviceInfoView {
    pub id: int,
    pub interface: Seq<char>,
    pub name: Seq<char>,
    pub io: IO,
}

impl View for DeviceInfo {
    type V = DeviceInfoView;

    open spec fn view(&self) -> DeviceInfoView {
        DeviceInfoView {
            id: self.id as int,
            interface: self.interface@,
            name: self.name@,
            io: self.io,
        }
    }
}

/// What describing one raw record yields: the validated record, or the
/// first failure — invalid text in either name buffer before an
/// impossible flag pair.
pub open spec fn spec_describe(id: int, raw: PmDeviceInfo) -> Result<DeviceInfoView, Error> {
    if !valid_utf8(raw.interface@) || !valid_utf8(raw.name@) {
        Err(Error::Decode)
    } else {
        match spec_direction(raw.input, raw.output) {
            Some(io) => Ok(
                (DeviceInfoView {
                    id,
                    interface: decode_utf8(raw.interface@),
                    name: decode_utf8(raw.name@),
                    io,
                }),
            ),
            None => Err(Error::Consistency),
        }
    }
}

/// Relies on `String::from_utf8`: succeeds exactly on bytes that are
/// valid UTF-8 and returns their decoded characters.
#[verifier::external_body]
fn decode_text(bytes: &Vec<u8>) -> (r: Option<String>)
    ensures
        r is Some <==> valid_utf8(bytes@),
        r matches Some(s) ==> s@ == decode_utf8(bytes@),
{
    String::from_utf8(bytes.clone()).ok()
}

impl DeviceInfo {
    /// Converts one raw device-info record, already copied out of the
    /// native service's memory, into an owned record for slot `id`.
    /// `Decode` if either name buffer is not valid text, `Consistency`
    /// if the direction flags are not exactly one of the two agreeing
    /// pairs.
    pub fn new(id: PmDeviceId, raw: &PmDeviceInfo) -> (r: Result<DeviceInfo, Error>)
        ensures
            r matches Ok(d) ==> spec_describe(id as int, *raw) == Ok::<DeviceInfoView, Error>(d@),
            r matches Err(e) ==> spec_describe(id as int, *raw) == Err::<DeviceInfoView, Error>(e),
    {
        let interface = match decode_text(&raw.interface) {
            Some(s) => s,
            None => {
                return Err(Error::Decode);
            },
        };
        let name = match decode_text(&raw.name) {
            Some(s) => s,
            None => {
                return Err(Error::Decode);
            },
        };
        match direction_of(raw.input, raw.output) {
            Some(io) => Ok(DeviceInfo { id, interface, name, io }),
            None => Err(Error::Consistency),
        }
    }
}

/// The direction of any successfully described device comes from exactly
/// one agreeing flag pair: input-only gives `Input`, output-only gives
/// `Output`; a record is never both and never neither.
pub proof fn lemma_direction_exclusive(id: int, raw: PmDeviceInfo)
    requires
        spec_describe(id, raw) is Ok,
    ensures
        spec_describe(id, raw)->Ok_0.io is Input <==> raw.input == 1 && raw.output == 0,
        spec_describe(id, raw)->Ok_0.io is Output <==> raw.input == 0 && raw.output == 1,
{
}

/// A successfully described record carries the slot it was described for,
/// so a successful enumeration is indexed by slot, in ascending order.
pub proof fn lemma_describe_keeps_id(id: int, raw: PmDeviceInfo)
    requires
        spec_describe(id, raw) is Ok,
    ensures
        spec_describe(id, raw)->Ok_0.id == id,
{
}

/// Describes every slot of a snapshot of raw records, in ascending slot
/// order, slot `i` from `raws[i]`. Yields one owned record per raw record,
/// or the first failure and no partial output.
pub fn enumerate(raws: &Vec<PmDeviceInfo>) -> (r: Result<Vec<DeviceInfo>, Error>)
    requires
        raws@.len() <= 0x7fff_ffff,
    ensures
        r is Ok <==> (forall|i: int| 0 <= i < raws@.len() ==> spec_describe(i, raws@[i]) is Ok),
        r matches Ok(v) ==> v@.len() == raws@.len() && (forall|i: int|
            0 <= i < raws@.len() ==> v@[i]@ == spec_describe(i, raws@[i])->Ok_0),
        r matches Err(e) ==> exists|i: int|
            0 <= i < raws@.len() && spec_describe(i, raws@[i]) == Err::<DeviceInfoView, Error>(e)
                && (forall|k: int| 0 <= k < i ==> spec_describe(k, raws@[k]) is Ok),
{
    let mut out: Vec<DeviceInfo> = Vec::new();
    let mut i: usize = 0;
    while i < raws.len()
        invariant
            i <= raws@.len(),
            raws@.len() <= 0x7fff_ffff,
            out@.len() == i,
            forall|k: int| 0 <= k < i ==> spec_describe(k, raws@[k]) is Ok,
            forall|k: int| 0 <= k < i ==> out@[k]@ == spec_describe(k, raws@[k])->Ok_0,
        decreases raws@.len() - i,
    {
        match DeviceInfo::new(i as PmDeviceId, &raws[i]) {
            Ok(d) => out.push(d),
            Err(e) => {
                return Err(e);
            },
        }
        i = i + 1;
    }
    Ok(out)
}

} // verus!
