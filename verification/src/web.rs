//! Web requests: HTTP requests relayed through the device's cloud
//! connection.
use vstd::prelude::*;

pub mod req;

use crate::hal::{DelayMs, I2cBus};
use crate::{same_config, NoteError, NoteState, Notecard};

verus! {

/// Perform an HTTP POST against an external route configured for the
/// device. A pre-serialized JSON object may be supplied as the request
/// body.
pub fn post<IOM: I2cBus, D: DelayMs>(
    note: &mut Notecard<IOM>,
    delay: &mut D,
    route: &str,
    name: Option<&str>,
    body: Option<&[u8]>,
    payload: Option<&str>,
    content: Option<&str>,
    seconds: Option<u16>,
    max: Option<u16>,
    verify: Option<bool>,
    nasync: Option<bool>,
) -> (r: Result<(), NoteError>)
    requires
        old(note).wf(),
    ensures
        final(note).wf(),
        same_config(final(note)@, old(note)@),
        ({
            let c = (req::Post {
            req: "web.post",
            route: route,
            name: name,
            body: body,
            payload: payload,
            content: content,
            seconds: seconds,
            max: max,
            verify: verify,
            nasync: nasync,
        }).json();
            &&& (r is Ok ==> final(note)@.state == NoteState::Poll(0)
                && final(note)@.buf =~= c + seq![10u8])
            &&& (old(note)@.state is Request && c.len() + 1 <= old(note)@.cap ==> (r is Ok
                || (r is Err && r->Err_0 is I2cWriteError)))
        }),
{
    let cmd = req::Post {
        req: "web.post",
        route,
        name,
        body,
        payload,
        content,
        seconds,
        max,
        verify,
        nasync,
    };
    let json = cmd.to_json();
    note.request(delay, json.as_slice())
}

} // verus!
