//! Hub requests: the device's connection to its cloud service.
use vstd::prelude::*;
use vstd::string::StringSliceAdditionalSpecFns;

pub mod req;
pub mod res;

use crate::hal::{DelayMs, I2cBus};
use crate::{json, same_config, NoteError, NoteState, Notecard};

verus! {

/// Add a "device health" log message to send on the next sync.
pub fn log<IOM: I2cBus, D: DelayMs>(
    note: &mut Notecard<IOM>,
    delay: &mut D,
    text: &str,
    alert: bool,
    sync: bool,
) -> (r: Result<(), NoteError>)
    requires
        old(note).wf(),
    ensures
        final(note).wf(),
        same_config(final(note)@, old(note)@),
        ({
            let c = (req::HubLog {
            req: "hub.log",
            text: text,
            alert: alert,
            sync: sync,
        }).json();
            &&& (r is Ok ==> final(note)@.state == NoteState::Poll(0)
                && final(note)@.buf =~= c + seq![10u8])
            &&& (old(note)@.state is Request && c.len() + 1 <= old(note)@.cap ==> (r is Ok
                || (r is Err && r->Err_0 is I2cWriteError)))
        }),
{
    let cmd = req::HubLog { req: "hub.log", text, alert, sync };
    let body = cmd.to_json();
    note.request(delay, body.as_slice())
}

/// Retrieve the current hub configuration.
pub fn get<IOM: I2cBus, D: DelayMs>(note: &mut Notecard<IOM>, delay: &mut D) -> (r: Result<
    (),
    NoteError,
>)
    requires
        old(note).wf(),
    ensures
        final(note).wf(),
        same_config(final(note)@, old(note)@),
        ({
            let c = (
        "{\"req\":\"hub.get\"}").spec_bytes();
            &&& (r is Ok ==> final(note)@.state == NoteState::Poll(0)
                && final(note)@.buf =~= c + seq![10u8])
            &&& (old(note)@.state is Request && c.len() + 1 <= old(note)@.cap ==> (r is Ok
                || (r is Err && r->Err_0 is I2cWriteError)))
        }),
{
    let mut body: Vec<u8> = Vec::new();
    json::push_lit(&mut body, "{\"req\":\"hub.get\"}");
    note.request(delay, body.as_slice())
}

/// Control the device's hub connection and sync behavior.
pub fn set<IOM: I2cBus, D: DelayMs>(
    note: &mut Notecard<IOM>,
    delay: &mut D,
    product: Option<&str>,
    host: Option<&str>,
    mode: Option<req::HubMode>,
    sn: Option<&str>,
    outbound: Option<u32>,
    duration: Option<u32>,
    voutbound: Option<&str>,
    inbound: Option<u32>,
    vinbound: Option<&str>,
    align: Option<bool>,
    sync: Option<bool>,
) -> (r: Result<(), NoteError>)
    requires
        old(note).wf(),
    ensures
        final(note).wf(),
        same_config(final(note)@, old(note)@),
        ({
            let c = (req::HubSet {
            req: "hub.set",
            product: product,
            host: host,
            mode: mode,
            sn: sn,
            outbound: outbound,
            duration: duration,
            voutbound: voutbound,
            inbound: inbound,
            vinbound: vinbound,
            align: align,
            sync: sync,
        }).json();
            &&& (r is Ok ==> final(note)@.state == NoteState::Poll(0)
                && final(note)@.buf =~= c + seq![10u8])
            &&& (old(note)@.state is Request && c.len() + 1 <= old(note)@.cap ==> (r is Ok
                || (r is Err && r->Err_0 is I2cWriteError)))
        }),
{
    let cmd = req::HubSet {
        req: "hub.set",
        product,
        host,
        mode,
        sn,
        outbound,
        duration,
        voutbound,
        inbound,
        vinbound,
        align,
        sync,
    };
    let body = cmd.to_json();
    note.request(delay, body.as_slice())
}

/// Manually initiate a sync with the hub. `allow` removes the device from
/// any penalty boxes.
pub fn sync<IOM: I2cBus, D: DelayMs>(note: &mut Notecard<IOM>, delay: &mut D, allow: bool) -> (r:
    Result<(), NoteError>)
    requires
        old(note).wf(),
    ensures
        final(note).wf(),
        same_config(final(note)@, old(note)@),
        ({
            let c = (req::HubSync {
            req: "hub.sync",
            allow: if allow {
                Some(true)
            } else {
                None
            },
        }).json();
            &&& (r is Ok ==> final(note)@.state == NoteState::Poll(0)
                && final(note)@.buf =~= c + seq![10u8])
            &&& (old(note)@.state is Request && c.len() + 1 <= old(note)@.cap ==> (r is Ok
                || (r is Err && r->Err_0 is I2cWriteError)))
        }),
{
    let cmd = req::HubSync { req: "hub.sync", allow: if allow { Some(true) } else { None } };
    let body = cmd.to_json();
    note.request(delay, body.as_slice())
}

/// Check on the status of a recently triggered or previous sync.
pub fn sync_status<IOM: I2cBus, D: DelayMs>(note: &mut Notecard<IOM>, delay: &mut D) -> (r: Result<
    (),
    NoteError,
>)
    requires
        old(note).wf(),
    ensures
        final(note).wf(),
        same_config(final(note)@, old(note)@),
        ({
            let c = (
        "{\"req\":\"hub.sync.status\"}").spec_bytes();
            &&& (r is Ok ==> final(note)@.state == NoteState::Poll(0)
                && final(note)@.buf =~= c + seq![10u8])
            &&& (old(note)@.state is Request && c.len() + 1 <= old(note)@.cap ==> (r is Ok
                || (r is Err && r->Err_0 is I2cWriteError)))
        }),
{
    let mut body: Vec<u8> = Vec::new();
    json::push_lit(&mut body, "{\"req\":\"hub.sync.status\"}");
    note.request(delay, body.as_slice())
}

} // verus!
