//! Firmware-update requests: retrieving downloaded firmware data and
//! tracking download status.
use vstd::prelude::*;

pub mod req;
pub mod res;

use crate::hal::{DelayMs, I2cBus};
use crate::{same_config, NoteError, NoteState, Notecard};

verus! {

/// Retrieve downloaded firmware data from the device. Functional only when
/// the device has been put in firmware-download mode.
pub fn get<IOM: I2cBus, D: DelayMs>(
    note: &mut Notecard<IOM>,
    delay: &mut D,
    length: usize,
    offset: Option<usize>,
) -> (r: Result<(), NoteError>)
    requires
        old(note).wf(),
    ensures
        final(note).wf(),
        same_config(final(note)@, old(note)@),
        ({
            let c = (req::Get {
            req: "dfu.get",
            length: length,
            offset: offset,
        }).json();
            &&& (r is Ok ==> final(note)@.state == NoteState::Poll(0)
                && final(note)@.buf =~= c + seq![10u8])
            &&& (old(note)@.state is Request && c.len() + 1 <= old(note)@.cap ==> (r is Ok
                || (r is Err && r->Err_0 is I2cWriteError)))
        }),
{
    let cmd = req::Get { req: "dfu.get", length, offset };
    let body = cmd.to_json();
    note.request(delay, body.as_slice())
}

/// Get or set the background download status of host or device firmware
/// updates.
pub fn status<IOM: I2cBus, D: DelayMs>(
    note: &mut Notecard<IOM>,
    delay: &mut D,
    name: Option<req::StatusName>,
    stop: Option<bool>,
    status_text: Option<&str>,
    version: Option<&str>,
    vvalue: Option<&str>,
    on: Option<bool>,
    err: Option<&str>,
) -> (r: Result<(), NoteError>)
    requires
        old(note).wf(),
    ensures
        final(note).wf(),
        same_config(final(note)@, old(note)@),
        ({
            let c = req::Status::spec_new(
            name,
            stop,
            status_text,
            version,
            vvalue,
            on,
            err,
        ).json();
            &&& (r is Ok ==> final(note)@.state == NoteState::Poll(0)
                && final(note)@.buf =~= c + seq![10u8])
            &&& (old(note)@.state is Request && c.len() + 1 <= old(note)@.cap ==> (r is Ok
                || (r is Err && r->Err_0 is I2cWriteError)))
        }),
{
    let cmd = req::Status::new(name, stop, status_text, version, vvalue, on, err);
    let body = cmd.to_json();
    note.request(delay, body.as_slice())
}

} // verus!
